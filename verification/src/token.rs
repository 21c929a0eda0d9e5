//! Tokens of C source code: keywords, identifiers, constants and symbols.

use crate::text::{decimal, lemma_utf8_len_ascii, push_decimal, str_eq, utf8_len};
use vstd::prelude::*;
use vstd::std_specs::convert::FromSpecImpl;
use vstd::std_specs::convert::TryFromSpecImpl;
use vstd::string::StringExecFns;
use vstd::string::StringSliceAdditionalSpecFns;

verus! {

/// A C keyword.
#[derive(Copy, Clone, Debug, PartialEq, Eq, Structural)]
#[allow(missing_docs)]
pub enum Keyword {
    Auto,
    Break,
    Case,
    Char,
    Const,
    Continue,
    Default,
    Do,
    Double,
    Else,
    Enum,
    Extern,
    Float,
    For,
    Goto,
    If,
    Int,
    Long,
    Register,
    Return,
    Short,
    Signed,
    Sizeof,
    Static,
    Struct,
    Switch,
    Typedef,
    Union,
    Unsigned,
    Void,
    Volatile,
    While,
}

/// The spelling of a keyword: its name in lower case.
pub open spec fn keyword_chars(k: Keyword) -> Seq<char> {
    match k {
        Keyword::Auto => "auto"@,
        Keyword::Break => "break"@,
        Keyword::Case => "case"@,
        Keyword::Char => "char"@,
        Keyword::Const => "const"@,
        Keyword::Continue => "continue"@,
        Keyword::Default => "default"@,
        Keyword::Do => "do"@,
        Keyword::Double => "double"@,
        Keyword::Else => "else"@,
        Keyword::Enum => "enum"@,
        Keyword::Extern => "extern"@,
        Keyword::Float => "float"@,
        Keyword::For => "for"@,
        Keyword::Goto => "goto"@,
        Keyword::If => "if"@,
        Keyword::Int => "int"@,
        Keyword::Long => "long"@,
        Keyword::Register => "register"@,
        Keyword::Return => "return"@,
        Keyword::Short => "short"@,
        Keyword::Signed => "signed"@,
        Keyword::Sizeof => "sizeof"@,
        Keyword::Static => "static"@,
        Keyword::Struct => "struct"@,
        Keyword::Switch => "switch"@,
        Keyword::Typedef => "typedef"@,
        Keyword::Union => "union"@,
        Keyword::Unsigned => "unsigned"@,
        Keyword::Void => "void"@,
        Keyword::Volatile => "volatile"@,
        Keyword::While => "while"@,
    }
}

/// The keyword spelled by `s`, if there is one; keywords are tried in declaration order.
pub open spec fn keyword_from_chars(s: Seq<char>) -> Option<Keyword> {
    if s == "auto"@ {
        Some(Keyword::Auto)
    } else if s == "break"@ {
        Some(Keyword::Break)
    } else if s == "case"@ {
        Some(Keyword::Case)
    } else if s == "char"@ {
        Some(Keyword::Char)
    } else if s == "const"@ {
        Some(Keyword::Const)
    } else if s == "continue"@ {
        Some(Keyword::Continue)
    } else if s == "default"@ {
        Some(Keyword::Default)
    } else if s == "do"@ {
        Some(Keyword::Do)
    } else if s == "double"@ {
        Some(Keyword::Double)
    } else if s == "else"@ {
        Some(Keyword::Else)
    } else if s == "enum"@ {
        Some(Keyword::Enum)
    } else if s == "extern"@ {
        Some(Keyword::Extern)
    } else if s == "float"@ {
        Some(Keyword::Float)
    } else if s == "for"@ {
        Some(Keyword::For)
    } else if s == "goto"@ {
        Some(Keyword::Goto)
    } else if s == "if"@ {
        Some(Keyword::If)
    } else if s == "int"@ {
        Some(Keyword::Int)
    } else if s == "long"@ {
        Some(Keyword::Long)
    } else if s == "register"@ {
        Some(Keyword::Register)
    } else if s == "return"@ {
        Some(Keyword::Return)
    } else if s == "short"@ {
        Some(Keyword::Short)
    } else if s == "signed"@ {
        Some(Keyword::Signed)
    } else if s == "sizeof"@ {
        Some(Keyword::Sizeof)
    } else if s == "static"@ {
        Some(Keyword::Static)
    } else if s == "struct"@ {
        Some(Keyword::Struct)
    } else if s == "switch"@ {
        Some(Keyword::Switch)
    } else if s == "typedef"@ {
        Some(Keyword::Typedef)
    } else if s == "union"@ {
        Some(Keyword::Union)
    } else if s == "unsigned"@ {
        Some(Keyword::Unsigned)
    } else if s == "void"@ {
        Some(Keyword::Void)
    } else if s == "volatile"@ {
        Some(Keyword::Volatile)
    } else if s == "while"@ {
        Some(Keyword::While)
    } else {
        None
    }
}

/// All keywords, in declaration order.
pub open spec fn all_keywords() -> Seq<Keyword> {
    seq![
        Keyword::Auto,
        Keyword::Break,
        Keyword::Case,
        Keyword::Char,
        Keyword::Const,
        Keyword::Continue,
        Keyword::Default,
        Keyword::Do,
        Keyword::Double,
        Keyword::Else,
        Keyword::Enum,
        Keyword::Extern,
        Keyword::Float,
        Keyword::For,
        Keyword::Goto,
        Keyword::If,
        Keyword::Int,
        Keyword::Long,
        Keyword::Register,
        Keyword::Return,
        Keyword::Short,
        Keyword::Signed,
        Keyword::Sizeof,
        Keyword::Static,
        Keyword::Struct,
        Keyword::Switch,
        Keyword::Typedef,
        Keyword::Union,
        Keyword::Unsigned,
        Keyword::Void,
        Keyword::Volatile,
        Keyword::While,
    ]
}

impl Keyword {
    /// The spelling of this keyword.
    pub fn as_str(self) -> (s: &'static str)
        ensures
            s@ == keyword_chars(self),
            s == keyword_static_str(self),
    {
        match self {
            Keyword::Auto => "auto",
            Keyword::Break => "break",
            Keyword::Case => "case",
            Keyword::Char => "char",
            Keyword::Const => "const",
            Keyword::Continue => "continue",
            Keyword::Default => "default",
            Keyword::Do => "do",
            Keyword::Double => "double",
            Keyword::Else => "else",
            Keyword::Enum => "enum",
            Keyword::Extern => "extern",
            Keyword::Float => "float",
            Keyword::For => "for",
            Keyword::Goto => "goto",
            Keyword::If => "if",
            Keyword::Int => "int",
            Keyword::Long => "long",
            Keyword::Register => "register",
            Keyword::Return => "return",
            Keyword::Short => "short",
            Keyword::Signed => "signed",
            Keyword::Sizeof => "sizeof",
            Keyword::Static => "static",
            Keyword::Struct => "struct",
            Keyword::Switch => "switch",
            Keyword::Typedef => "typedef",
            Keyword::Union => "union",
            Keyword::Unsigned => "unsigned",
            Keyword::Void => "void",
            Keyword::Volatile => "volatile",
            Keyword::While => "while",
        }
    }

    /// All keywords, in declaration order.
    pub fn iter() -> (v: Vec<Keyword>)
        ensures
            v@ == all_keywords(),
    {
        let v = vec![
            Keyword::Auto,
            Keyword::Break,
            Keyword::Case,
            Keyword::Char,
            Keyword::Const,
            Keyword::Continue,
            Keyword::Default,
            Keyword::Do,
            Keyword::Double,
            Keyword::Else,
            Keyword::Enum,
            Keyword::Extern,
            Keyword::Float,
            Keyword::For,
            Keyword::Goto,
            Keyword::If,
            Keyword::Int,
            Keyword::Long,
            Keyword::Register,
            Keyword::Return,
            Keyword::Short,
            Keyword::Signed,
            Keyword::Sizeof,
            Keyword::Static,
            Keyword::Struct,
            Keyword::Switch,
            Keyword::Typedef,
            Keyword::Union,
            Keyword::Unsigned,
            Keyword::Void,
            Keyword::Volatile,
            Keyword::While,
        ];
        assert(v@ =~= all_keywords());
        v
    }

    /// The keyword spelled by `s`, if there is one.
    pub fn from_text(s: &str) -> (r: Option<Keyword>)
        ensures
            r == keyword_from_chars(s@),
    {
        if str_eq(s, "auto") {
            Some(Keyword::Auto)
        } else if str_eq(s, "break") {
            Some(Keyword::Break)
        } else if str_eq(s, "case") {
            Some(Keyword::Case)
        } else if str_eq(s, "char") {
            Some(Keyword::Char)
        } else if str_eq(s, "const") {
            Some(Keyword::Const)
        } else if str_eq(s, "continue") {
            Some(Keyword::Continue)
        } else if str_eq(s, "default") {
            Some(Keyword::Default)
        } else if str_eq(s, "do") {
            Some(Keyword::Do)
        } else if str_eq(s, "double") {
            Some(Keyword::Double)
        } else if str_eq(s, "else") {
            Some(Keyword::Else)
        } else if str_eq(s, "enum") {
            Some(Keyword::Enum)
        } else if str_eq(s, "extern") {
            Some(Keyword::Extern)
        } else if str_eq(s, "float") {
            Some(Keyword::Float)
        } else if str_eq(s, "for") {
            Some(Keyword::For)
        } else if str_eq(s, "goto") {
            Some(Keyword::Goto)
        } else if str_eq(s, "if") {
            Some(Keyword::If)
        } else if str_eq(s, "int") {
            Some(Keyword::Int)
        } else if str_eq(s, "long") {
            Some(Keyword::Long)
        } else if str_eq(s, "register") {
            Some(Keyword::Register)
        } else if str_eq(s, "return") {
            Some(Keyword::Return)
        } else if str_eq(s, "short") {
            Some(Keyword::Short)
        } else if str_eq(s, "signed") {
            Some(Keyword::Signed)
        } else if str_eq(s, "sizeof") {
            Some(Keyword::Sizeof)
        } else if str_eq(s, "static") {
            Some(Keyword::Static)
        } else if str_eq(s, "struct") {
            Some(Keyword::Struct)
        } else if str_eq(s, "switch") {
            Some(Keyword::Switch)
        } else if str_eq(s, "typedef") {
            Some(Keyword::Typedef)
        } else if str_eq(s, "union") {
            Some(Keyword::Union)
        } else if str_eq(s, "unsigned") {
            Some(Keyword::Unsigned)
        } else if str_eq(s, "void") {
            Some(Keyword::Void)
        } else if str_eq(s, "volatile") {
            Some(Keyword::Volatile)
        } else if str_eq(s, "while") {
            Some(Keyword::While)
        } else {
            None
        }
    }

    /// The spelling of this keyword, as `Display` would write it.
    pub fn to_string(&self) -> (s: String)
        ensures
            s@ == keyword_chars(*self),
    {
        let mut s = String::new();
        s.append(self.as_str());
        s
    }
}

/// The static string that spells a keyword.
pub open spec fn keyword_static_str(k: Keyword) -> &'static str {
    match k {
        Keyword::Auto => "auto",
        Keyword::Break => "break",
        Keyword::Case => "case",
        Keyword::Char => "char",
        Keyword::Const => "const",
        Keyword::Continue => "continue",
        Keyword::Default => "default",
        Keyword::Do => "do",
        Keyword::Double => "double",
        Keyword::Else => "else",
        Keyword::Enum => "enum",
        Keyword::Extern => "extern",
        Keyword::Float => "float",
        Keyword::For => "for",
        Keyword::Goto => "goto",
        Keyword::If => "if",
        Keyword::Int => "int",
        Keyword::Long => "long",
        Keyword::Register => "register",
        Keyword::Return => "return",
        Keyword::Short => "short",
        Keyword::Signed => "signed",
        Keyword::Sizeof => "sizeof",
        Keyword::Static => "static",
        Keyword::Struct => "struct",
        Keyword::Switch => "switch",
        Keyword::Typedef => "typedef",
        Keyword::Union => "union",
        Keyword::Unsigned => "unsigned",
        Keyword::Void => "void",
        Keyword::Volatile => "volatile",
        Keyword::While => "while",
    }
}

/// The static string of a keyword holds its spelling.
pub proof fn lemma_keyword_static_str(k: Keyword)
    ensures
        keyword_static_str(k)@ == keyword_chars(k),
{
}

impl From<Keyword> for &'static str {
    fn from(value: Keyword) -> (s: &'static str) {
        value.as_str()
    }
}

impl FromSpecImpl<Keyword> for &'static str {
    open spec fn obeys_from_spec() -> bool {
        true
    }

    open spec fn from_spec(v: Keyword) -> &'static str {
        keyword_static_str(v)
    }
}

/// Reading back the spelling of any keyword gives that keyword.
pub proof fn lemma_keyword_round_trip(k: Keyword)
    ensures
        keyword_from_chars(keyword_chars(k)) == Some(k),
{
    match k {
        Keyword::Auto => {
        },
        Keyword::Break => {
            assert("break"@ != "auto"@) by { reveal_strlit("break"); reveal_strlit("auto"); assert("break"@.len() != "auto"@.len()); }
        },
        Keyword::Case => {
            assert("case"@ != "auto"@) by { reveal_strlit("case"); reveal_strlit("auto"); assert("case"@[0] != "auto"@[0]); }
            assert("case"@ != "break"@) by { reveal_strlit("case"); reveal_strlit("break"); assert("case"@.len() != "break"@.len()); }
        },
        Keyword::Char => {
            assert("char"@ != "auto"@) by { reveal_strlit("char"); reveal_strlit("auto"); assert("char"@[0] != "auto"@[0]); }
            assert("char"@ != "break"@) by { reveal_strlit("char"); reveal_strlit("break"); assert("char"@.len() != "break"@.len()); }
            assert("char"@ != "case"@) by { reveal_strlit("char"); reveal_strlit("case"); assert("char"@[1] != "case"@[1]); }
        },
        Keyword::Const => {
            assert("const"@ != "auto"@) by { reveal_strlit("const"); reveal_strlit("auto"); assert("const"@.len() != "auto"@.len()); }
            assert("const"@ != "break"@) by { reveal_strlit("const"); reveal_strlit("break"); assert("const"@[0] != "break"@[0]); }
            assert("const"@ != "case"@) by { reveal_strlit("const"); reveal_strlit("case"); assert("const"@.len() != "case"@.len()); }
            assert("const"@ != "char"@) by { reveal_strlit("const"); reveal_strlit("char"); assert("const"@.len() != "char"@.len()); }
        },
        Keyword::Continue => {
            assert("continue"@ != "auto"@) by { reveal_strlit("continue"); reveal_strlit("auto"); assert("continue"@.len() != "auto"@.len()); }
            assert("continue"@ != "break"@) by { reveal_strlit("continue"); reveal_strlit("break"); assert("continue"@.len() != "break"@.len()); }
            assert("continue"@ != "case"@) by { reveal_strlit("continue"); reveal_strlit("case"); assert("continue"@.len() != "case"@.len()); }
            assert("continue"@ != "char"@) by { reveal_strlit("continue"); reveal_strlit("char"); assert("continue"@.len() != "char"@.len()); }
            assert("continue"@ != "const"@) by { reveal_strlit("continue"); reveal_strlit("const"); assert("continue"@.len() != "const"@.len()); }
        },
        Keyword::Default => {
            assert("default"@ != "auto"@) by { reveal_strlit("default"); reveal_strlit("auto"); assert("default"@.len() != "auto"@.len()); }
            assert("default"@ != "break"@) by { reveal_strlit("default"); reveal_strlit("break"); assert("default"@.len() != "break"@.len()); }
            assert("default"@ != "case"@) by { reveal_strlit("default"); reveal_strlit("case"); assert("default"@.len() != "case"@.len()); }
            assert("default"@ != "char"@) by { reveal_strlit("default"); reveal_strlit("char"); assert("default"@.len() != "char"@.len()); }
            assert("default"@ != "const"@) by { reveal_strlit("default"); reveal_strlit("const"); assert("default"@.len() != "const"@.len()); }
            assert("default"@ != "continue"@) by { reveal_strlit("default"); reveal_strlit("continue"); assert("default"@.len() != "continue"@.len()); }
        },
        Keyword::Do => {
            assert("do"@ != "auto"@) by { reveal_strlit("do"); reveal_strlit("auto"); assert("do"@.len() != "auto"@.len()); }
            assert("do"@ != "break"@) by { reveal_strlit("do"); reveal_strlit("break"); assert("do"@.len() != "break"@.len()); }
            assert("do"@ != "case"@) by { reveal_strlit("do"); reveal_strlit("case"); assert("do"@.len() != "case"@.len()); }
            assert("do"@ != "char"@) by { reveal_strlit("do"); reveal_strlit("char"); assert("do"@.len() != "char"@.len()); }
            assert("do"@ != "const"@) by { reveal_strlit("do"); reveal_strlit("const"); assert("do"@.len() != "const"@.len()); }
            assert("do"@ != "continue"@) by { reveal_strlit("do"); reveal_strlit("continue"); assert("do"@.len() != "continue"@.len()); }
            assert("do"@ != "default"@) by { reveal_strlit("do"); reveal_strlit("default"); assert("do"@.len() != "default"@.len()); }
        },
        Keyword::Double => {
            assert("double"@ != "auto"@) by { reveal_strlit("double"); reveal_strlit("auto"); assert("double"@.len() != "auto"@.len()); }
            assert("double"@ != "break"@) by { reveal_strlit("double"); reveal_strlit("break"); assert("double"@.len() != "break"@.len()); }
            assert("double"@ != "case"@) by { reveal_strlit("double"); reveal_strlit("case"); assert("double"@.len() != "case"@.len()); }
            assert("double"@ != "char"@) by { reveal_strlit("double"); reveal_strlit("char"); assert("double"@.len() != "char"@.len()); }
            assert("double"@ != "const"@) by { reveal_strlit("double"); reveal_strlit("const"); assert("double"@.len() != "const"@.len()); }
            assert("double"@ != "continue"@) by { reveal_strlit("double"); reveal_strlit("continue"); assert("double"@.len() != "continue"@.len()); }
            assert("double"@ != "default"@) by { reveal_strlit("double"); reveal_strlit("default"); assert("double"@.len() != "default"@.len()); }
            assert("double"@ != "do"@) by { reveal_strlit("double"); reveal_strlit("do"); assert("double"@.len() != "do"@.len()); }
        },
        Keyword::Else => {
            assert("else"@ != "auto"@) by { reveal_strlit("else"); reveal_strlit("auto"); assert("else"@[0] != "auto"@[0]); }
            assert("else"@ != "break"@) by { reveal_strlit("else"); reveal_strlit("break"); assert("else"@.len() != "break"@.len()); }
            assert("else"@ != "case"@) by { reveal_strlit("else"); reveal_strlit("case"); assert("else"@[0] != "case"@[0]); }
            assert("else"@ != "char"@) by { reveal_strlit("else"); reveal_strlit("char"); assert("else"@[0] != "char"@[0]); }
            assert("else"@ != "const"@) by { reveal_strlit("else"); reveal_strlit("const"); assert("else"@.len() != "const"@.len()); }
            assert("else"@ != "continue"@) by { reveal_strlit("else"); reveal_strlit("continue"); assert("else"@.len() != "continue"@.len()); }
            assert("else"@ != "default"@) by { reveal_strlit("else"); reveal_strlit("default"); assert("else"@.len() != "default"@.len()); }
            assert("else"@ != "do"@) by { reveal_strlit("else"); reveal_strlit("do"); assert("else"@.len() != "do"@.len()); }
            assert("else"@ != "double"@) by { reveal_strlit("else"); reveal_strlit("double"); assert("else"@.len() != "double"@.len()); }
        },
        Keyword::Enum => {
            assert("enum"@ != "auto"@) by { reveal_strlit("enum"); reveal_strlit("auto"); assert("enum"@[0] != "auto"@[0]); }
            assert("enum"@ != "break"@) by { reveal_strlit("enum"); reveal_strlit("break"); assert("enum"@.len() != "break"@.len()); }
            assert("enum"@ != "case"@) by { reveal_strlit("enum"); reveal_strlit("case"); assert("enum"@[0] != "case"@[0]); }
            assert("enum"@ != "char"@) by { reveal_strlit("enum"); reveal_strlit("char"); assert("enum"@[0] != "char"@[0]); }
            assert("enum"@ != "const"@) by { reveal_strlit("enum"); reveal_strlit("const"); assert("enum"@.len() != "const"@.len()); }
            assert("enum"@ != "continue"@) by { reveal_strlit("enum"); reveal_strlit("continue"); assert("enum"@.len() != "continue"@.len()); }
            assert("enum"@ != "default"@) by { reveal_strlit("enum"); reveal_strlit("default"); assert("enum"@.len() != "default"@.len()); }
            assert("enum"@ != "do"@) by { reveal_strlit("enum"); reveal_strlit("do"); assert("enum"@.len() != "do"@.len()); }
            assert("enum"@ != "double"@) by { reveal_strlit("enum"); reveal_strlit("double"); assert("enum"@.len() != "double"@.len()); }
            assert("enum"@ != "else"@) by { reveal_strlit("enum"); reveal_strlit("else"); assert("enum"@[1] != "else"@[1]); }
        },
        Keyword::Extern => {
            assert("extern"@ != "auto"@) by { reveal_strlit("extern"); reveal_strlit("auto"); assert("extern"@.len() != "auto"@.len()); }
            assert("extern"@ != "break"@) by { reveal_strlit("extern"); reveal_strlit("break"); assert("extern"@.len() != "break"@.len()); }
            assert("extern"@ != "case"@) by { reveal_strlit("extern"); reveal_strlit("case"); assert("extern"@.len() != "case"@.len()); }
            assert("extern"@ != "char"@) by { reveal_strlit("extern"); reveal_strlit("char"); assert("extern"@.len() != "char"@.len()); }
            assert("extern"@ != "const"@) by { reveal_strlit("extern"); reveal_strlit("const"); assert("extern"@.len() != "const"@.len()); }
            assert("extern"@ != "continue"@) by { reveal_strlit("extern"); reveal_strlit("continue"); assert("extern"@.len() != "continue"@.len()); }
            assert("extern"@ != "default"@) by { reveal_strlit("extern"); reveal_strlit("default"); assert("extern"@.len() != "default"@.len()); }
            assert("extern"@ != "do"@) by { reveal_strlit("extern"); reveal_strlit("do"); assert("extern"@.len() != "do"@.len()); }
            assert("extern"@ != "double"@) by { reveal_strlit("extern"); reveal_strlit("double"); assert("extern"@[0] != "double"@[0]); }
            assert("extern"@ != "else"@) by { reveal_strlit("extern"); reveal_strlit("else"); assert("extern"@.len() != "else"@.len()); }
            assert("extern"@ != "enum"@) by { reveal_strlit("extern"); reveal_strlit("enum"); assert("extern"@.len() != "enum"@.len()); }
        },
        Keyword::Float => {
            assert("float"@ != "auto"@) by { reveal_strlit("float"); reveal_strlit("auto"); assert("float"@.len() != "auto"@.len()); }
            assert("float"@ != "break"@) by { reveal_strlit("float"); reveal_strlit("break"); assert("float"@[0] != "break"@[0]); }
            assert("float"@ != "case"@) by { reveal_strlit("float"); reveal_strlit("case"); assert("float"@.len() != "case"@.len()); }
            assert("float"@ != "char"@) by { reveal_strlit("float"); reveal_strlit("char"); assert("float"@.len() != "char"@.len()); }
            assert("float"@ != "const"@) by { reveal_strlit("float"); reveal_strlit("const"); assert("float"@[0] != "const"@[0]); }
            assert("float"@ != "continue"@) by { reveal_strlit("float"); reveal_strlit("continue"); assert("float"@.len() != "continue"@.len()); }
            assert("float"@ != "default"@) by { reveal_strlit("float"); reveal_strlit("default"); assert("float"@.len() != "default"@.len()); }
            assert("float"@ != "do"@) by { reveal_strlit("float"); reveal_strlit("do"); assert("float"@.len() != "do"@.len()); }
            assert("float"@ != "double"@) by { reveal_strlit("float"); reveal_strlit("double"); assert("float"@.len() != "double"@.len()); }
            assert("float"@ != "else"@) by { reveal_strlit("float"); reveal_strlit("else"); assert("float"@.len() != "else"@.len()); }
            assert("float"@ != "enum"@) by { reveal_strlit("float"); reveal_strlit("enum"); assert("float"@.len() != "enum"@.len()); }
            assert("float"@ != "extern"@) by { reveal_strlit("float"); reveal_strlit("extern"); assert("float"@.len() != "extern"@.len()); }
        },
        Keyword::For => {
            assert("for"@ != "auto"@) by { reveal_strlit("for"); reveal_strlit("auto"); assert("for"@.len() != "auto"@.len()); }
            assert("for"@ != "break"@) by { reveal_strlit("for"); reveal_strlit("break"); assert("for"@.len() != "break"@.len()); }
            assert("for"@ != "case"@) by { reveal_strlit("for"); reveal_strlit("case"); assert("for"@.len() != "case"@.len()); }
            assert("for"@ != "char"@) by { reveal_strlit("for"); reveal_strlit("char"); assert("for"@.len() != "char"@.len()); }
            assert("for"@ != "const"@) by { reveal_strlit("for"); reveal_strlit("const"); assert("for"@.len() != "const"@.len()); }
            assert("for"@ != "continue"@) by { reveal_strlit("for"); reveal_strlit("continue"); assert("for"@.len() != "continue"@.len()); }
            assert("for"@ != "default"@) by { reveal_strlit("for"); reveal_strlit("default"); assert("for"@.len() != "default"@.len()); }
            assert("for"@ != "do"@) by { reveal_strlit("for"); reveal_strlit("do"); assert("for"@.len() != "do"@.len()); }
            assert("for"@ != "double"@) by { reveal_strlit("for"); reveal_strlit("double"); assert("for"@.len() != "double"@.len()); }
            assert("for"@ != "else"@) by { reveal_strlit("for"); reveal_strlit("else"); assert("for"@.len() != "else"@.len()); }
            assert("for"@ != "enum"@) by { reveal_strlit("for"); reveal_strlit("enum"); assert("for"@.len() != "enum"@.len()); }
            assert("for"@ != "extern"@) by { reveal_strlit("for"); reveal_strlit("extern"); assert("for"@.len() != "extern"@.len()); }
            assert("for"@ != "float"@) by { reveal_strlit("for"); reveal_strlit("float"); assert("for"@.len() != "float"@.len()); }
        },
        Keyword::Goto => {
            assert("goto"@ != "auto"@) by { reveal_strlit("goto"); reveal_strlit("auto"); assert("goto"@[0] != "auto"@[0]); }
            assert("goto"@ != "break"@) by { reveal_strlit("goto"); reveal_strlit("break"); assert("goto"@.len() != "break"@.len()); }
            assert("goto"@ != "case"@) by { reveal_strlit("goto"); reveal_strlit("case"); assert("goto"@[0] != "case"@[0]); }
            assert("goto"@ != "char"@) by { reveal_strlit("goto"); reveal_strlit("char"); assert("goto"@[0] != "char"@[0]); }
            assert("goto"@ != "const"@) by { reveal_strlit("goto"); reveal_strlit("const"); assert("goto"@.len() != "const"@.len()); }
            assert("goto"@ != "continue"@) by { reveal_strlit("goto"); reveal_strlit("continue"); assert("goto"@.len() != "continue"@.len()); }
            assert("goto"@ != "default"@) by { reveal_strlit("goto"); reveal_strlit("default"); assert("goto"@.len() != "default"@.len()); }
            assert("goto"@ != "do"@) by { reveal_strlit("goto"); reveal_strlit("do"); assert("goto"@.len() != "do"@.len()); }
            assert("goto"@ != "double"@) by { reveal_strlit("goto"); reveal_strlit("double"); assert("goto"@.len() != "double"@.len()); }
            assert("goto"@ != "else"@) by { reveal_strlit("goto"); reveal_strlit("else"); assert("goto"@[0] != "else"@[0]); }
            assert("goto"@ != "enum"@) by { reveal_strlit("goto"); reveal_strlit("enum"); assert("goto"@[0] != "enum"@[0]); }
            assert("goto"@ != "extern"@) by { reveal_strlit("goto"); reveal_strlit("extern"); assert("goto"@.len() != "extern"@.len()); }
            assert("goto"@ != "float"@) by { reveal_strlit("goto"); reveal_strlit("float"); assert("goto"@.len() != "float"@.len()); }
            assert("goto"@ != "for"@) by { reveal_strlit("goto"); reveal_strlit("for"); assert("goto"@.len() != "for"@.len()); }
        },
        Keyword::If => {
            assert("if"@ != "auto"@) by { reveal_strlit("if"); reveal_strlit("auto"); assert("if"@.len() != "auto"@.len()); }
            assert("if"@ != "break"@) by { reveal_strlit("if"); reveal_strlit("break"); assert("if"@.len() != "break"@.len()); }
            assert("if"@ != "case"@) by { reveal_strlit("if"); reveal_strlit("case"); assert("if"@.len() != "case"@.len()); }
            assert("if"@ != "char"@) by { reveal_strlit("if"); reveal_strlit("char"); assert("if"@.len() != "char"@.len()); }
            assert("if"@ != "const"@) by { reveal_strlit("if"); reveal_strlit("const"); assert("if"@.len() != "const"@.len()); }
            assert("if"@ != "continue"@) by { reveal_strlit("if"); reveal_strlit("continue"); assert("if"@.len() != "continue"@.len()); }
            assert("if"@ != "default"@) by { reveal_strlit("if"); reveal_strlit("default"); assert("if"@.len() != "default"@.len()); }
            assert("if"@ != "do"@) by { reveal_strlit("if"); reveal_strlit("do"); assert("if"@[0] != "do"@[0]); }
            assert("if"@ != "double"@) by { reveal_strlit("if"); reveal_strlit("double"); assert("if"@.len() != "double"@.len()); }
            assert("if"@ != "else"@) by { reveal_strlit("if"); reveal_strlit("else"); assert("if"@.len() != "else"@.len()); }
            assert("if"@ != "enum"@) by { reveal_strlit("if"); reveal_strlit("enum"); assert("if"@.len() != "enum"@.len()); }
            assert("if"@ != "extern"@) by { reveal_strlit("if"); reveal_strlit("extern"); assert("if"@.len() != "extern"@.len()); }
            assert("if"@ != "float"@) by { reveal_strlit("if"); reveal_strlit("float"); assert("if"@.len() != "float"@.len()); }
            assert("if"@ != "for"@) by { reveal_strlit("if"); reveal_strlit("for"); assert("if"@.len() != "for"@.len()); }
            assert("if"@ != "goto"@) by { reveal_strlit("if"); reveal_strlit("goto"); assert("if"@.len() != "goto"@.len()); }
        },
        Keyword::Int => {
            assert("int"@ != "auto"@) by { reveal_strlit("int"); reveal_strlit("auto"); assert("int"@.len() != "auto"@.len()); }
            assert("int"@ != "break"@) by { reveal_strlit("int"); reveal_strlit("break"); assert("int"@.len() != "break"@.len()); }
            assert("int"@ != "case"@) by { reveal_strlit("int"); reveal_strlit("case"); assert("int"@.len() != "case"@.len()); }
            assert("int"@ != "char"@) by { reveal_strlit("int"); reveal_strlit("char"); assert("int"@.len() != "char"@.len()); }
            assert("int"@ != "const"@) by { reveal_strlit("int"); reveal_strlit("const"); assert("int"@.len() != "const"@.len()); }
            assert("int"@ != "continue"@) by { reveal_strlit("int"); reveal_strlit("continue"); assert("int"@.len() != "continue"@.len()); }
            assert("int"@ != "default"@) by { reveal_strlit("int"); reveal_strlit("default"); assert("int"@.len() != "default"@.len()); }
            assert("int"@ != "do"@) by { reveal_strlit("int"); reveal_strlit("do"); assert("int"@.len() != "do"@.len()); }
            assert("int"@ != "double"@) by { reveal_strlit("int"); reveal_strlit("double"); assert("int"@.len() != "double"@.len()); }
            assert("int"@ != "else"@) by { reveal_strlit("int"); reveal_strlit("else"); assert("int"@.len() != "else"@.len()); }
            assert("int"@ != "enum"@) by { reveal_strlit("int"); reveal_strlit("enum"); assert("int"@.len() != "enum"@.len()); }
            assert("int"@ != "extern"@) by { reveal_strlit("int"); reveal_strlit("extern"); assert("int"@.len() != "extern"@.len()); }
            assert("int"@ != "float"@) by { reveal_strlit("int"); reveal_strlit("float"); assert("int"@.len() != "float"@.len()); }
            assert("int"@ != "for"@) by { reveal_strlit("int"); reveal_strlit("for"); assert("int"@[0] != "for"@[0]); }
            assert("int"@ != "goto"@) by { reveal_strlit("int"); reveal_strlit("goto"); assert("int"@.len() != "goto"@.len()); }
            assert("int"@ != "if"@) by { reveal_strlit("int"); reveal_strlit("if"); assert("int"@.len() != "if"@.len()); }
        },
        Keyword::Long => {
            assert("long"@ != "auto"@) by { reveal_strlit("long"); reveal_strlit("auto"); assert("long"@[0] != "auto"@[0]); }
            assert("long"@ != "break"@) by { reveal_strlit("long"); reveal_strlit("break"); assert("long"@.len() != "break"@.len()); }
            assert("long"@ != "case"@) by { reveal_strlit("long"); reveal_strlit("case"); assert("long"@[0] != "case"@[0]); }
            assert("long"@ != "char"@) by { reveal_strlit("long"); reveal_strlit("char"); assert("long"@[0] != "char"@[0]); }
            assert("long"@ != "const"@) by { reveal_strlit("long"); reveal_strlit("const"); assert("long"@.len() != "const"@.len()); }
            assert("long"@ != "continue"@) by { reveal_strlit("long"); reveal_strlit("continue"); assert("long"@.len() != "continue"@.len()); }
            assert("long"@ != "default"@) by { reveal_strlit("long"); reveal_strlit("default"); assert("long"@.len() != "default"@.len()); }
            assert("long"@ != "do"@) by { reveal_strlit("long"); reveal_strlit("do"); assert("long"@.len() != "do"@.len()); }
            assert("long"@ != "double"@) by { reveal_strlit("long"); reveal_strlit("double"); assert("long"@.len() != "double"@.len()); }
            assert("long"@ != "else"@) by { reveal_strlit("long"); reveal_strlit("else"); assert("long"@[0] != "else"@[0]); }
            assert("long"@ != "enum"@) by { reveal_strlit("long"); reveal_strlit("enum"); assert("long"@[0] != "enum"@[0]); }
            assert("long"@ != "extern"@) by { reveal_strlit("long"); reveal_strlit("extern"); assert("long"@.len() != "extern"@.len()); }
            assert("long"@ != "float"@) by { reveal_strlit("long"); reveal_strlit("float"); assert("long"@.len() != "float"@.len()); }
            assert("long"@ != "for"@) by { reveal_strlit("long"); reveal_strlit("for"); assert("long"@.len() != "for"@.len()); }
            assert("long"@ != "goto"@) by { reveal_strlit("long"); reveal_strlit("goto"); assert("long"@[0] != "goto"@[0]); }
            assert("long"@ != "if"@) by { reveal_strlit("long"); reveal_strlit("if"); assert("long"@.len() != "if"@.len()); }
            assert("long"@ != "int"@) by { reveal_strlit("long"); reveal_strlit("int"); assert("long"@.len() != "int"@.len()); }
        },
        Keyword::Register => {
            assert("register"@ != "auto"@) by { reveal_strlit("register"); reveal_strlit("auto"); assert("register"@.len() != "auto"@.len()); }
            assert("register"@ != "break"@) by { reveal_strlit("register"); reveal_strlit("break"); assert("register"@.len() != "break"@.len()); }
            assert("register"@ != "case"@) by { reveal_strlit("register"); reveal_strlit("case"); assert("register"@.len() != "case"@.len()); }
            assert("register"@ != "char"@) by { reveal_strlit("register"); reveal_strlit("char"); assert("register"@.len() != "char"@.len()); }
            assert("register"@ != "const"@) by { reveal_strlit("register"); reveal_strlit("const"); assert("register"@.len() != "const"@.len()); }
            assert("register"@ != "continue"@) by { reveal_strlit("register"); reveal_strlit("continue"); assert("register"@[0] != "continue"@[0]); }
            assert("register"@ != "default"@) by { reveal_strlit("register"); reveal_strlit("default"); assert("register"@.len() != "default"@.len()); }
            assert("register"@ != "do"@) by { reveal_strlit("register"); reveal_strlit("do"); assert("register"@.len() != "do"@.len()); }
            assert("register"@ != "double"@) by { reveal_strlit("register"); reveal_strlit("double"); assert("register"@.len() != "double"@.len()); }
            assert("register"@ != "else"@) by { reveal_strlit("register"); reveal_strlit("else"); assert("register"@.len() != "else"@.len()); }
            assert("register"@ != "enum"@) by { reveal_strlit("register"); reveal_strlit("enum"); assert("register"@.len() != "enum"@.len()); }
            assert("register"@ != "extern"@) by { reveal_strlit("register"); reveal_strlit("extern"); assert("register"@.len() != "extern"@.len()); }
            assert("register"@ != "float"@) by { reveal_strlit("register"); reveal_strlit("float"); assert("register"@.len() != "float"@.len()); }
            assert("register"@ != "for"@) by { reveal_strlit("register"); reveal_strlit("for"); assert("register"@.len() != "for"@.len()); }
            assert("register"@ != "goto"@) by { reveal_strlit("register"); reveal_strlit("goto"); assert("register"@.len() != "goto"@.len()); }
            assert("register"@ != "if"@) by { reveal_strlit("register"); reveal_strlit("if"); assert("register"@.len() != "if"@.len()); }
            assert("register"@ != "int"@) by { reveal_strlit("register"); reveal_strlit("int"); assert("register"@.len() != "int"@.len()); }
            assert("register"@ != "long"@) by { reveal_strlit("register"); reveal_strlit("long"); assert("register"@.len() != "long"@.len()); }
        },
        Keyword::Return => {
            assert("return"@ != "auto"@) by { reveal_strlit("return"); reveal_strlit("auto"); assert("return"@.len() != "auto"@.len()); }
            assert("return"@ != "break"@) by { reveal_strlit("return"); reveal_strlit("break"); assert("return"@.len() != "break"@.len()); }
            assert("return"@ != "case"@) by { reveal_strlit("return"); reveal_strlit("case"); assert("return"@.len() != "case"@.len()); }
            assert("return"@ != "char"@) by { reveal_strlit("return"); reveal_strlit("char"); assert("return"@.len() != "char"@.len()); }
            assert("return"@ != "const"@) by { reveal_strlit("return"); reveal_strlit("const"); assert("return"@.len() != "const"@.len()); }
            assert("return"@ != "continue"@) by { reveal_strlit("return"); reveal_strlit("continue"); assert("return"@.len() != "continue"@.len()); }
            assert("return"@ != "default"@) by { reveal_strlit("return"); reveal_strlit("default"); assert("return"@.len() != "default"@.len()); }
            assert("return"@ != "do"@) by { reveal_strlit("return"); reveal_strlit("do"); assert("return"@.len() != "do"@.len()); }
            assert("return"@ != "double"@) by { reveal_strlit("return"); reveal_strlit("double"); assert("return"@[0] != "double"@[0]); }
            assert("return"@ != "else"@) by { reveal_strlit("return"); reveal_strlit("else"); assert("return"@.len() != "else"@.len()); }
            assert("return"@ != "enum"@) by { reveal_strlit("return"); reveal_strlit("enum"); assert("return"@.len() != "enum"@.len()); }
            assert("return"@ != "extern"@) by { reveal_strlit("return"); reveal_strlit("extern"); assert("return"@[0] != "extern"@[0]); }
            assert("return"@ != "float"@) by { reveal_strlit("return"); reveal_strlit("float"); assert("return"@.len() != "float"@.len()); }
            assert("return"@ != "for"@) by { reveal_strlit("return"); reveal_strlit("for"); assert("return"@.len() != "for"@.len()); }
            assert("return"@ != "goto"@) by { reveal_strlit("return"); reveal_strlit("goto"); assert("return"@.len() != "goto"@.len()); }
            assert("return"@ != "if"@) by { reveal_strlit("return"); reveal_strlit("if"); assert("return"@.len() != "if"@.len()); }
            assert("return"@ != "int"@) by { reveal_strlit("return"); reveal_strlit("int"); assert("return"@.len() != "int"@.len()); }
            assert("return"@ != "long"@) by { reveal_strlit("return"); reveal_strlit("long"); assert("return"@.len() != "long"@.len()); }
            assert("return"@ != "register"@) by { reveal_strlit("return"); reveal_strlit("register"); assert("return"@.len() != "register"@.len()); }
        },
        Keyword::Short => {
            assert("short"@ != "auto"@) by { reveal_strlit("short"); reveal_strlit("auto"); assert("short"@.len() != "auto"@.len()); }
            assert("short"@ != "break"@) by { reveal_strlit("short"); reveal_strlit("break"); assert("short"@[0] != "break"@[0]); }
            assert("short"@ != "case"@) by { reveal_strlit("short"); reveal_strlit("case"); assert("short"@.len() != "case"@.len()); }
            assert("short"@ != "char"@) by { reveal_strlit("short"); reveal_strlit("char"); assert("short"@.len() != "char"@.len()); }
            assert("short"@ != "const"@) by { reveal_strlit("short"); reveal_strlit("const"); assert("short"@[0] != "const"@[0]); }
            assert("short"@ != "continue"@) by { reveal_strlit("short"); reveal_strlit("continue"); assert("short"@.len() != "continue"@.len()); }
            assert("short"@ != "default"@) by { reveal_strlit("short"); reveal_strlit("default"); assert("short"@.len() != "default"@.len()); }
            assert("short"@ != "do"@) by { reveal_strlit("short"); reveal_strlit("do"); assert("short"@.len() != "do"@.len()); }
            assert("short"@ != "double"@) by { reveal_strlit("short"); reveal_strlit("double"); assert("short"@.len() != "double"@.len()); }
            assert("short"@ != "else"@) by { reveal_strlit("short"); reveal_strlit("else"); assert("short"@.len() != "else"@.len()); }
            assert("short"@ != "enum"@) by { reveal_strlit("short"); reveal_strlit("enum"); assert("short"@.len() != "enum"@.len()); }
            assert("short"@ != "extern"@) by { reveal_strlit("short"); reveal_strlit("extern"); assert("short"@.len() != "extern"@.len()); }
            assert("short"@ != "float"@) by { reveal_strlit("short"); reveal_strlit("float"); assert("short"@[0] != "float"@[0]); }
            assert("short"@ != "for"@) by { reveal_strlit("short"); reveal_strlit("for"); assert("short"@.len() != "for"@.len()); }
            assert("short"@ != "goto"@) by { reveal_strlit("short"); reveal_strlit("goto"); assert("short"@.len() != "goto"@.len()); }
            assert("short"@ != "if"@) by { reveal_strlit("short"); reveal_strlit("if"); assert("short"@.len() != "if"@.len()); }
            assert("short"@ != "int"@) by { reveal_strlit("short"); reveal_strlit("int"); assert("short"@.len() != "int"@.len()); }
            assert("short"@ != "long"@) by { reveal_strlit("short"); reveal_strlit("long"); assert("short"@.len() != "long"@.len()); }
            assert("short"@ != "register"@) by { reveal_strlit("short"); reveal_strlit("register"); assert("short"@.len() != "register"@.len()); }
            assert("short"@ != "return"@) by { reveal_strlit("short"); reveal_strlit("return"); assert("short"@.len() != "return"@.len()); }
        },
        Keyword::Signed => {
            assert("signed"@ != "auto"@) by { reveal_strlit("signed"); reveal_strlit("auto"); assert("signed"@.len() != "auto"@.len()); }
            assert("signed"@ != "break"@) by { reveal_strlit("signed"); reveal_strlit("break"); assert("signed"@.len() != "break"@.len()); }
            assert("signed"@ != "case"@) by { reveal_strlit("signed"); reveal_strlit("case"); assert("signed"@.len() != "case"@.len()); }
            assert("signed"@ != "char"@) by { reveal_strlit("signed"); reveal_strlit("char"); assert("signed"@.len() != "char"@.len()); }
            assert("signed"@ != "const"@) by { reveal_strlit("signed"); reveal_strlit("const"); assert("signed"@.len() != "const"@.len()); }
            assert("signed"@ != "continue"@) by { reveal_strlit("signed"); reveal_strlit("continue"); assert("signed"@.len() != "continue"@.len()); }
            assert("signed"@ != "default"@) by { reveal_strlit("signed"); reveal_strlit("default"); assert("signed"@.len() != "default"@.len()); }
            assert("signed"@ != "do"@) by { reveal_strlit("signed"); reveal_strlit("do"); assert("signed"@.len() != "do"@.len()); }
            assert("signed"@ != "double"@) by { reveal_strlit("signed"); reveal_strlit("double"); assert("signed"@[0] != "double"@[0]); }
            assert("signed"@ != "else"@) by { reveal_strlit("signed"); reveal_strlit("else"); assert("signed"@.len() != "else"@.len()); }
            assert("signed"@ != "enum"@) by { reveal_strlit("signed"); reveal_strlit("enum"); assert("signed"@.len() != "enum"@.len()); }
            assert("signed"@ != "extern"@) by { reveal_strlit("signed"); reveal_strlit("extern"); assert("signed"@[0] != "extern"@[0]); }
            assert("signed"@ != "float"@) by { reveal_strlit("signed"); reveal_strlit("float"); assert("signed"@.len() != "float"@.len()); }
            assert("signed"@ != "for"@) by { reveal_strlit("signed"); reveal_strlit("for"); assert("signed"@.len() != "for"@.len()); }
            assert("signed"@ != "goto"@) by { reveal_strlit("signed"); reveal_strlit("goto"); assert("signed"@.len() != "goto"@.len()); }
            assert("signed"@ != "if"@) by { reveal_strlit("signed"); reveal_strlit("if"); assert("signed"@.len() != "if"@.len()); }
            assert("signed"@ != "int"@) by { reveal_strlit("signed"); reveal_strlit("int"); assert("signed"@.len() != "int"@.len()); }
            assert("signed"@ != "long"@) by { reveal_strlit("signed"); reveal_strlit("long"); assert("signed"@.len() != "long"@.len()); }
            assert("signed"@ != "register"@) by { reveal_strlit("signed"); reveal_strlit("register"); assert("signed"@.len() != "register"@.len()); }
            assert("signed"@ != "return"@) by { reveal_strlit("signed"); reveal_strlit("return"); assert("signed"@[0] != "return"@[0]); }
            assert("signed"@ != "short"@) by { reveal_strlit("signed"); reveal_strlit("short"); assert("signed"@.len() != "short"@.len()); }
        },
        Keyword::Sizeof => {
            assert("sizeof"@ != "auto"@) by { reveal_strlit("sizeof"); reveal_strlit("auto"); assert("sizeof"@.len() != "auto"@.len()); }
            assert("sizeof"@ != "break"@) by { reveal_strlit("sizeof"); reveal_strlit("break"); assert("sizeof"@.len() != "break"@.len()); }
            assert("sizeof"@ != "case"@) by { reveal_strlit("sizeof"); reveal_strlit("case"); assert("sizeof"@.len() != "case"@.len()); }
            assert("sizeof"@ != "char"@) by { reveal_strlit("sizeof"); reveal_strlit("char"); assert("sizeof"@.len() != "char"@.len()); }
            assert("sizeof"@ != "const"@) by { reveal_strlit("sizeof"); reveal_strlit("const"); assert("sizeof"@.len() != "const"@.len()); }
            assert("sizeof"@ != "continue"@) by { reveal_strlit("sizeof"); reveal_strlit("continue"); assert("sizeof"@.len() != "continue"@.len()); }
            assert("sizeof"@ != "default"@) by { reveal_strlit("sizeof"); reveal_strlit("default"); assert("sizeof"@.len() != "default"@.len()); }
            assert("sizeof"@ != "do"@) by { reveal_strlit("sizeof"); reveal_strlit("do"); assert("sizeof"@.len() != "do"@.len()); }
            assert("sizeof"@ != "double"@) by { reveal_strlit("sizeof"); reveal_strlit("double"); assert("sizeof"@[0] != "double"@[0]); }
            assert("sizeof"@ != "else"@) by { reveal_strlit("sizeof"); reveal_strlit("else"); assert("sizeof"@.len() != "else"@.len()); }
            assert("sizeof"@ != "enum"@) by { reveal_strlit("sizeof"); reveal_strlit("enum"); assert("sizeof"@.len() != "enum"@.len()); }
            assert("sizeof"@ != "extern"@) by { reveal_strlit("sizeof"); reveal_strlit("extern"); assert("sizeof"@[0] != "extern"@[0]); }
            assert("sizeof"@ != "float"@) by { reveal_strlit("sizeof"); reveal_strlit("float"); assert("sizeof"@.len() != "float"@.len()); }
            assert("sizeof"@ != "for"@) by { reveal_strlit("sizeof"); reveal_strlit("for"); assert("sizeof"@.len() != "for"@.len()); }
            assert("sizeof"@ != "goto"@) by { reveal_strlit("sizeof"); reveal_strlit("goto"); assert("sizeof"@.len() != "goto"@.len()); }
            assert("sizeof"@ != "if"@) by { reveal_strlit("sizeof"); reveal_strlit("if"); assert("sizeof"@.len() != "if"@.len()); }
            assert("sizeof"@ != "int"@) by { reveal_strlit("sizeof"); reveal_strlit("int"); assert("sizeof"@.len() != "int"@.len()); }
            assert("sizeof"@ != "long"@) by { reveal_strlit("sizeof"); reveal_strlit("long"); assert("sizeof"@.len() != "long"@.len()); }
            assert("sizeof"@ != "register"@) by { reveal_strlit("sizeof"); reveal_strlit("register"); assert("sizeof"@.len() != "register"@.len()); }
            assert("sizeof"@ != "return"@) by { reveal_strlit("sizeof"); reveal_strlit("return"); assert("sizeof"@[0] != "return"@[0]); }
            assert("sizeof"@ != "short"@) by { reveal_strlit("sizeof"); reveal_strlit("short"); assert("sizeof"@.len() != "short"@.len()); }
            assert("sizeof"@ != "signed"@) by { reveal_strlit("sizeof"); reveal_strlit("signed"); assert("sizeof"@[2] != "signed"@[2]); }
        },
        Keyword::Static => {
            assert("static"@ != "auto"@) by { reveal_strlit("static"); reveal_strlit("auto"); assert("static"@.len() != "auto"@.len()); }
            assert("static"@ != "break"@) by { reveal_strlit("static"); reveal_strlit("break"); assert("static"@.len() != "break"@.len()); }
            assert("static"@ != "case"@) by { reveal_strlit("static"); reveal_strlit("case"); assert("static"@.len() != "case"@.len()); }
            assert("static"@ != "char"@) by { reveal_strlit("static"); reveal_strlit("char"); assert("static"@.len() != "char"@.len()); }
            assert("static"@ != "const"@) by { reveal_strlit("static"); reveal_strlit("const"); assert("static"@.len() != "const"@.len()); }
            assert("static"@ != "continue"@) by { reveal_strlit("static"); reveal_strlit("continue"); assert("static"@.len() != "continue"@.len()); }
            assert("static"@ != "default"@) by { reveal_strlit("static"); reveal_strlit("default"); assert("static"@.len() != "default"@.len()); }
            assert("static"@ != "do"@) by { reveal_strlit("static"); reveal_strlit("do"); assert("static"@.len() != "do"@.len()); }
            assert("static"@ != "double"@) by { reveal_strlit("static"); reveal_strlit("double"); assert("static"@[0] != "double"@[0]); }
            assert("static"@ != "else"@) by { reveal_strlit("static"); reveal_strlit("else"); assert("static"@.len() != "else"@.len()); }
            assert("static"@ != "enum"@) by { reveal_strlit("static"); reveal_strlit("enum"); assert("static"@.len() != "enum"@.len()); }
            assert("static"@ != "extern"@) by { reveal_strlit("static"); reveal_strlit("extern"); assert("static"@[0] != "extern"@[0]); }
            assert("static"@ != "float"@) by { reveal_strlit("static"); reveal_strlit("float"); assert("static"@.len() != "float"@.len()); }
            assert("static"@ != "for"@) by { reveal_strlit("static"); reveal_strlit("for"); assert("static"@.len() != "for"@.len()); }
            assert("static"@ != "goto"@) by { reveal_strlit("static"); reveal_strlit("goto"); assert("static"@.len() != "goto"@.len()); }
            assert("static"@ != "if"@) by { reveal_strlit("static"); reveal_strlit("if"); assert("static"@.len() != "if"@.len()); }
            assert("static"@ != "int"@) by { reveal_strlit("static"); reveal_strlit("int"); assert("static"@.len() != "int"@.len()); }
            assert("static"@ != "long"@) by { reveal_strlit("static"); reveal_strlit("long"); assert("static"@.len() != "long"@.len()); }
            assert("static"@ != "register"@) by { reveal_strlit("static"); reveal_strlit("register"); assert("static"@.len() != "register"@.len()); }
            assert("static"@ != "return"@) by { reveal_strlit("static"); reveal_strlit("return"); assert("static"@[0] != "return"@[0]); }
            assert("static"@ != "short"@) by { reveal_strlit("static"); reveal_strlit("short"); assert("static"@.len() != "short"@.len()); }
            assert("static"@ != "signed"@) by { reveal_strlit("static"); reveal_strlit("signed"); assert("static"@[1] != "signed"@[1]); }
            assert("static"@ != "sizeof"@) by { reveal_strlit("static"); reveal_strlit("sizeof"); assert("static"@[1] != "sizeof"@[1]); }
        },
        Keyword::Struct => {
            assert("struct"@ != "auto"@) by { reveal_strlit("struct"); reveal_strlit("auto"); assert("struct"@.len() != "auto"@.len()); }
            assert("struct"@ != "break"@) by { reveal_strlit("struct"); reveal_strlit("break"); assert("struct"@.len() != "break"@.len()); }
            assert("struct"@ != "case"@) by { reveal_strlit("struct"); reveal_strlit("case"); assert("struct"@.len() != "case"@.len()); }
            assert("struct"@ != "char"@) by { reveal_strlit("struct"); reveal_strlit("char"); assert("struct"@.len() != "char"@.len()); }
            assert("struct"@ != "const"@) by { reveal_strlit("struct"); reveal_strlit("const"); assert("struct"@.len() != "const"@.len()); }
            assert("struct"@ != "continue"@) by { reveal_strlit("struct"); reveal_strlit("continue"); assert("struct"@.len() != "continue"@.len()); }
            assert("struct"@ != "default"@) by { reveal_strlit("struct"); reveal_strlit("default"); assert("struct"@.len() != "default"@.len()); }
            assert("struct"@ != "do"@) by { reveal_strlit("struct"); reveal_strlit("do"); assert("struct"@.len() != "do"@.len()); }
            assert("struct"@ != "double"@) by { reveal_strlit("struct"); reveal_strlit("double"); assert("struct"@[0] != "double"@[0]); }
            assert("struct"@ != "else"@) by { reveal_strlit("struct"); reveal_strlit("else"); assert("struct"@.len() != "else"@.len()); }
            assert("struct"@ != "enum"@) by { reveal_strlit("struct"); reveal_strlit("enum"); assert("struct"@.len() != "enum"@.len()); }
            assert("struct"@ != "extern"@) by { reveal_strlit("struct"); reveal_strlit("extern"); assert("struct"@[0] != "extern"@[0]); }
            assert("struct"@ != "float"@) by { reveal_strlit("struct"); reveal_strlit("float"); assert("struct"@.len() != "float"@.len()); }
            assert("struct"@ != "for"@) by { reveal_strlit("struct"); reveal_strlit("for"); assert("struct"@.len() != "for"@.len()); }
            assert("struct"@ != "goto"@) by { reveal_strlit("struct"); reveal_strlit("goto"); assert("struct"@.len() != "goto"@.len()); }
            assert("struct"@ != "if"@) by { reveal_strlit("struct"); reveal_strlit("if"); assert("struct"@.len() != "if"@.len()); }
            assert("struct"@ != "int"@) by { reveal_strlit("struct"); reveal_strlit("int"); assert("struct"@.len() != "int"@.len()); }
            assert("struct"@ != "long"@) by { reveal_strlit("struct"); reveal_strlit("long"); assert("struct"@.len() != "long"@.len()); }
            assert("struct"@ != "register"@) by { reveal_strlit("struct"); reveal_strlit("register"); assert("struct"@.len() != "register"@.len()); }
            assert("struct"@ != "return"@) by { reveal_strlit("struct"); reveal_strlit("return"); assert("struct"@[0] != "return"@[0]); }
            assert("struct"@ != "short"@) by { reveal_strlit("struct"); reveal_strlit("short"); assert("struct"@.len() != "short"@.len()); }
            assert("struct"@ != "signed"@) by { reveal_strlit("struct"); reveal_strlit("signed"); assert("struct"@[1] != "signed"@[1]); }
            assert("struct"@ != "sizeof"@) by { reveal_strlit("struct"); reveal_strlit("sizeof"); assert("struct"@[1] != "sizeof"@[1]); }
            assert("struct"@ != "static"@) by { reveal_strlit("struct"); reveal_strlit("static"); assert("struct"@[2] != "static"@[2]); }
        },
        Keyword::Switch => {
            assert("switch"@ != "auto"@) by { reveal_strlit("switch"); reveal_strlit("auto"); assert("switch"@.len() != "auto"@.len()); }
            assert("switch"@ != "break"@) by { reveal_strlit("switch"); reveal_strlit("break"); assert("switch"@.len() != "break"@.len()); }
            assert("switch"@ != "case"@) by { reveal_strlit("switch"); reveal_strlit("case"); assert("switch"@.len() != "case"@.len()); }
            assert("switch"@ != "char"@) by { reveal_strlit("switch"); reveal_strlit("char"); assert("switch"@.len() != "char"@.len()); }
            assert("switch"@ != "const"@) by { reveal_strlit("switch"); reveal_strlit("const"); assert("switch"@.len() != "const"@.len()); }
            assert("switch"@ != "continue"@) by { reveal_strlit("switch"); reveal_strlit("continue"); assert("switch"@.len() != "continue"@.len()); }
            assert("switch"@ != "default"@) by { reveal_strlit("switch"); reveal_strlit("default"); assert("switch"@.len() != "default"@.len()); }
            assert("switch"@ != "do"@) by { reveal_strlit("switch"); reveal_strlit("do"); assert("switch"@.len() != "do"@.len()); }
            assert("switch"@ != "double"@) by { reveal_strlit("switch"); reveal_strlit("double"); assert("switch"@[0] != "double"@[0]); }
            assert("switch"@ != "else"@) by { reveal_strlit("switch"); reveal_strlit("else"); assert("switch"@.len() != "else"@.len()); }
            assert("switch"@ != "enum"@) by { reveal_strlit("switch"); reveal_strlit("enum"); assert("switch"@.len() != "enum"@.len()); }
            assert("switch"@ != "extern"@) by { reveal_strlit("switch"); reveal_strlit("extern"); assert("switch"@[0] != "extern"@[0]); }
            assert("switch"@ != "float"@) by { reveal_strlit("switch"); reveal_strlit("float"); assert("switch"@.len() != "float"@.len()); }
            assert("switch"@ != "for"@) by { reveal_strlit("switch"); reveal_strlit("for"); assert("switch"@.len() != "for"@.len()); }
            assert("switch"@ != "goto"@) by { reveal_strlit("switch"); reveal_strlit("goto"); assert("switch"@.len() != "goto"@.len()); }
            assert("switch"@ != "if"@) by { reveal_strlit("switch"); reveal_strlit("if"); assert("switch"@.len() != "if"@.len()); }
            assert("switch"@ != "int"@) by { reveal_strlit("switch"); reveal_strlit("int"); assert("switch"@.len() != "int"@.len()); }
            assert("switch"@ != "long"@) by { reveal_strlit("switch"); reveal_strlit("long"); assert("switch"@.len() != "long"@.len()); }
            assert("switch"@ != "register"@) by { reveal_strlit("switch"); reveal_strlit("register"); assert("switch"@.len() != "register"@.len()); }
            assert("switch"@ != "return"@) by { reveal_strlit("switch"); reveal_strlit("return"); assert("switch"@[0] != "return"@[0]); }
            assert("switch"@ != "short"@) by { reveal_strlit("switch"); reveal_strlit("short"); assert("switch"@.len() != "short"@.len()); }
            assert("switch"@ != "signed"@) by { reveal_strlit("switch"); reveal_strlit("signed"); assert("switch"@[1] != "signed"@[1]); }
            assert("switch"@ != "sizeof"@) by { reveal_strlit("switch"); reveal_strlit("sizeof"); assert("switch"@[1] != "sizeof"@[1]); }
            assert("switch"@ != "static"@) by { reveal_strlit("switch"); reveal_strlit("static"); assert("switch"@[1] != "static"@[1]); }
            assert("switch"@ != "struct"@) by { reveal_strlit("switch"); reveal_strlit("struct"); assert("switch"@[1] != "struct"@[1]); }
        },
        Keyword::Typedef => {
            assert("typedef"@ != "auto"@) by { reveal_strlit("typedef"); reveal_strlit("auto"); assert("typedef"@.len() != "auto"@.len()); }
            assert("typedef"@ != "break"@) by { reveal_strlit("typedef"); reveal_strlit("break"); assert("typedef"@.len() != "break"@.len()); }
            assert("typedef"@ != "case"@) by { reveal_strlit("typedef"); reveal_strlit("case"); assert("typedef"@.len() != "case"@.len()); }
            assert("typedef"@ != "char"@) by { reveal_strlit("typedef"); reveal_strlit("char"); assert("typedef"@.len() != "char"@.len()); }
            assert("typedef"@ != "const"@) by { reveal_strlit("typedef"); reveal_strlit("const"); assert("typedef"@.len() != "const"@.len()); }
            assert("typedef"@ != "continue"@) by { reveal_strlit("typedef"); reveal_strlit("continue"); assert("typedef"@.len() != "continue"@.len()); }
            assert("typedef"@ != "default"@) by { reveal_strlit("typedef"); reveal_strlit("default"); assert("typedef"@[0] != "default"@[0]); }
            assert("typedef"@ != "do"@) by { reveal_strlit("typedef"); reveal_strlit("do"); assert("typedef"@.len() != "do"@.len()); }
            assert("typedef"@ != "double"@) by { reveal_strlit("typedef"); reveal_strlit("double"); assert("typedef"@.len() != "double"@.len()); }
            assert("typedef"@ != "else"@) by { reveal_strlit("typedef"); reveal_strlit("else"); assert("typedef"@.len() != "else"@.len()); }
            assert("typedef"@ != "enum"@) by { reveal_strlit("typedef"); reveal_strlit("enum"); assert("typedef"@.len() != "enum"@.len()); }
            assert("typedef"@ != "extern"@) by { reveal_strlit("typedef"); reveal_strlit("extern"); assert("typedef"@.len() != "extern"@.len()); }
            assert("typedef"@ != "float"@) by { reveal_strlit("typedef"); reveal_strlit("float"); assert("typedef"@.len() != "float"@.len()); }
            assert("typedef"@ != "for"@) by { reveal_strlit("typedef"); reveal_strlit("for"); assert("typedef"@.len() != "for"@.len()); }
            assert("typedef"@ != "goto"@) by { reveal_strlit("typedef"); reveal_strlit("goto"); assert("typedef"@.len() != "goto"@.len()); }
            assert("typedef"@ != "if"@) by { reveal_strlit("typedef"); reveal_strlit("if"); assert("typedef"@.len() != "if"@.len()); }
            assert("typedef"@ != "int"@) by { reveal_strlit("typedef"); reveal_strlit("int"); assert("typedef"@.len() != "int"@.len()); }
            assert("typedef"@ != "long"@) by { reveal_strlit("typedef"); reveal_strlit("long"); assert("typedef"@.len() != "long"@.len()); }
            assert("typedef"@ != "register"@) by { reveal_strlit("typedef"); reveal_strlit("register"); assert("typedef"@.len() != "register"@.len()); }
            assert("typedef"@ != "return"@) by { reveal_strlit("typedef"); reveal_strlit("return"); assert("typedef"@.len() != "return"@.len()); }
            assert("typedef"@ != "short"@) by { reveal_strlit("typedef"); reveal_strlit("short"); assert("typedef"@.len() != "short"@.len()); }
            assert("typedef"@ != "signed"@) by { reveal_strlit("typedef"); reveal_strlit("signed"); assert("typedef"@.len() != "signed"@.len()); }
            assert("typedef"@ != "sizeof"@) by { reveal_strlit("typedef"); reveal_strlit("sizeof"); assert("typedef"@.len() != "sizeof"@.len()); }
            assert("typedef"@ != "static"@) by { reveal_strlit("typedef"); reveal_strlit("static"); assert("typedef"@.len() != "static"@.len()); }
            assert("typedef"@ != "struct"@) by { reveal_strlit("typedef"); reveal_strlit("struct"); assert("typedef"@.len() != "struct"@.len()); }
            assert("typedef"@ != "switch"@) by { reveal_strlit("typedef"); reveal_strlit("switch"); assert("typedef"@.len() != "switch"@.len()); }
        },
        Keyword::Union => {
            assert("union"@ != "auto"@) by { reveal_strlit("union"); reveal_strlit("auto"); assert("union"@.len() != "auto"@.len()); }
            assert("union"@ != "break"@) by { reveal_strlit("union"); reveal_strlit("break"); assert("union"@[0] != "break"@[0]); }
            assert("union"@ != "case"@) by { reveal_strlit("union"); reveal_strlit("case"); assert("union"@.len() != "case"@.len()); }
            assert("union"@ != "char"@) by { reveal_strlit("union"); reveal_strlit("char"); assert("union"@.len() != "char"@.len()); }
            assert("union"@ != "const"@) by { reveal_strlit("union"); reveal_strlit("const"); assert("union"@[0] != "const"@[0]); }
            assert("union"@ != "continue"@) by { reveal_strlit("union"); reveal_strlit("continue"); assert("union"@.len() != "continue"@.len()); }
            assert("union"@ != "default"@) by { reveal_strlit("union"); reveal_strlit("default"); assert("union"@.len() != "default"@.len()); }
            assert("union"@ != "do"@) by { reveal_strlit("union"); reveal_strlit("do"); assert("union"@.len() != "do"@.len()); }
            assert("union"@ != "double"@) by { reveal_strlit("union"); reveal_strlit("double"); assert("union"@.len() != "double"@.len()); }
            assert("union"@ != "else"@) by { reveal_strlit("union"); reveal_strlit("else"); assert("union"@.len() != "else"@.len()); }
            assert("union"@ != "enum"@) by { reveal_strlit("union"); reveal_strlit("enum"); assert("union"@.len() != "enum"@.len()); }
            assert("union"@ != "extern"@) by { reveal_strlit("union"); reveal_strlit("extern"); assert("union"@.len() != "extern"@.len()); }
            assert("union"@ != "float"@) by { reveal_strlit("union"); reveal_strlit("float"); assert("union"@[0] != "float"@[0]); }
            assert("union"@ != "for"@) by { reveal_strlit("union"); reveal_strlit("for"); assert("union"@.len() != "for"@.len()); }
            assert("union"@ != "goto"@) by { reveal_strlit("union"); reveal_strlit("goto"); assert("union"@.len() != "goto"@.len()); }
            assert("union"@ != "if"@) by { reveal_strlit("union"); reveal_strlit("if"); assert("union"@.len() != "if"@.len()); }
            assert("union"@ != "int"@) by { reveal_strlit("union"); reveal_strlit("int"); assert("union"@.len() != "int"@.len()); }
            assert("union"@ != "long"@) by { reveal_strlit("union"); reveal_strlit("long"); assert("union"@.len() != "long"@.len()); }
            assert("union"@ != "register"@) by { reveal_strlit("union"); reveal_strlit("register"); assert("union"@.len() != "register"@.len()); }
            assert("union"@ != "return"@) by { reveal_strlit("union"); reveal_strlit("return"); assert("union"@.len() != "return"@.len()); }
            assert("union"@ != "short"@) by { reveal_strlit("union"); reveal_strlit("short"); assert("union"@[0] != "short"@[0]); }
            assert("union"@ != "signed"@) by { reveal_strlit("union"); reveal_strlit("signed"); assert("union"@.len() != "signed"@.len()); }
            assert("union"@ != "sizeof"@) by { reveal_strlit("union"); reveal_strlit("sizeof"); assert("union"@.len() != "sizeof"@.len()); }
            assert("union"@ != "static"@) by { reveal_strlit("union"); reveal_strlit("static"); assert("union"@.len() != "static"@.len()); }
            assert("union"@ != "struct"@) by { reveal_strlit("union"); reveal_strlit("struct"); assert("union"@.len() != "struct"@.len()); }
            assert("union"@ != "switch"@) by { reveal_strlit("union"); reveal_strlit("switch"); assert("union"@.len() != "switch"@.len()); }
            assert("union"@ != "typedef"@) by { reveal_strlit("union"); reveal_strlit("typedef"); assert("union"@.len() != "typedef"@.len()); }
        },
        Keyword::Unsigned => {
            assert("unsigned"@ != "auto"@) by { reveal_strlit("unsigned"); reveal_strlit("auto"); assert("unsigned"@.len() != "auto"@.len()); }
            assert("unsigned"@ != "break"@) by { reveal_strlit("unsigned"); reveal_strlit("break"); assert("unsigned"@.len() != "break"@.len()); }
            assert("unsigned"@ != "case"@) by { reveal_strlit("unsigned"); reveal_strlit("case"); assert("unsigned"@.len() != "case"@.len()); }
            assert("unsigned"@ != "char"@) by { reveal_strlit("unsigned"); reveal_strlit("char"); assert("unsigned"@.len() != "char"@.len()); }
            assert("unsigned"@ != "const"@) by { reveal_strlit("unsigned"); reveal_strlit("const"); assert("unsigned"@.len() != "const"@.len()); }
            assert("unsigned"@ != "continue"@) by { reveal_strlit("unsigned"); reveal_strlit("continue"); assert("unsigned"@[0] != "continue"@[0]); }
            assert("unsigned"@ != "default"@) by { reveal_strlit("unsigned"); reveal_strlit("default"); assert("unsigned"@.len() != "default"@.len()); }
            assert("unsigned"@ != "do"@) by { reveal_strlit("unsigned"); reveal_strlit("do"); assert("unsigned"@.len() != "do"@.len()); }
            assert("unsigned"@ != "double"@) by { reveal_strlit("unsigned"); reveal_strlit("double"); assert("unsigned"@.len() != "double"@.len()); }
            assert("unsigned"@ != "else"@) by { reveal_strlit("unsigned"); reveal_strlit("else"); assert("unsigned"@.len() != "else"@.len()); }
            assert("unsigned"@ != "enum"@) by { reveal_strlit("unsigned"); reveal_strlit("enum"); assert("unsigned"@.len() != "enum"@.len()); }
            assert("unsigned"@ != "extern"@) by { reveal_strlit("unsigned"); reveal_strlit("extern"); assert("unsigned"@.len() != "extern"@.len()); }
            assert("unsigned"@ != "float"@) by { reveal_strlit("unsigned"); reveal_strlit("float"); assert("unsigned"@.len() != "float"@.len()); }
            assert("unsigned"@ != "for"@) by { reveal_strlit("unsigned"); reveal_strlit("for"); assert("unsigned"@.len() != "for"@.len()); }
            assert("unsigned"@ != "goto"@) by { reveal_strlit("unsigned"); reveal_strlit("goto"); assert("unsigned"@.len() != "goto"@.len()); }
            assert("unsigned"@ != "if"@) by { reveal_strlit("unsigned"); reveal_strlit("if"); assert("unsigned"@.len() != "if"@.len()); }
            assert("unsigned"@ != "int"@) by { reveal_strlit("unsigned"); reveal_strlit("int"); assert("unsigned"@.len() != "int"@.len()); }
            assert("unsigned"@ != "long"@) by { reveal_strlit("unsigned"); reveal_strlit("long"); assert("unsigned"@.len() != "long"@.len()); }
            assert("unsigned"@ != "register"@) by { reveal_strlit("unsigned"); reveal_strlit("register"); assert("unsigned"@[0] != "register"@[0]); }
            assert("unsigned"@ != "return"@) by { reveal_strlit("unsigned"); reveal_strlit("return"); assert("unsigned"@.len() != "return"@.len()); }
            assert("unsigned"@ != "short"@) by { reveal_strlit("unsigned"); reveal_strlit("short"); assert("unsigned"@.len() != "short"@.len()); }
            assert("unsigned"@ != "signed"@) by { reveal_strlit("unsigned"); reveal_strlit("signed"); assert("unsigned"@.len() != "signed"@.len()); }
            assert("unsigned"@ != "sizeof"@) by { reveal_strlit("unsigned"); reveal_strlit("sizeof"); assert("unsigned"@.len() != "sizeof"@.len()); }
            assert("unsigned"@ != "static"@) by { reveal_strlit("unsigned"); reveal_strlit("static"); assert("unsigned"@.len() != "static"@.len()); }
            assert("unsigned"@ != "struct"@) by { reveal_strlit("unsigned"); reveal_strlit("struct"); assert("unsigned"@.len() != "struct"@.len()); }
            assert("unsigned"@ != "switch"@) by { reveal_strlit("unsigned"); reveal_strlit("switch"); assert("unsigned"@.len() != "switch"@.len()); }
            assert("unsigned"@ != "typedef"@) by { reveal_strlit("unsigned"); reveal_strlit("typedef"); assert("unsigned"@.len() != "typedef"@.len()); }
            assert("unsigned"@ != "union"@) by { reveal_strlit("unsigned"); reveal_strlit("union"); assert("unsigned"@.len() != "union"@.len()); }
        },
        Keyword::Void => {
            assert("void"@ != "auto"@) by { reveal_strlit("void"); reveal_strlit("auto"); assert("void"@[0] != "auto"@[0]); }
            assert("void"@ != "break"@) by { reveal_strlit("void"); reveal_strlit("break"); assert("void"@.len() != "break"@.len()); }
            assert("void"@ != "case"@) by { reveal_strlit("void"); reveal_strlit("case"); assert("void"@[0] != "case"@[0]); }
            assert("void"@ != "char"@) by { reveal_strlit("void"); reveal_strlit("char"); assert("void"@[0] != "char"@[0]); }
            assert("void"@ != "const"@) by { reveal_strlit("void"); reveal_strlit("const"); assert("void"@.len() != "const"@.len()); }
            assert("void"@ != "continue"@) by { reveal_strlit("void"); reveal_strlit("continue"); assert("void"@.len() != "continue"@.len()); }
            assert("void"@ != "default"@) by { reveal_strlit("void"); reveal_strlit("default"); assert("void"@.len() != "default"@.len()); }
            assert("void"@ != "do"@) by { reveal_strlit("void"); reveal_strlit("do"); assert("void"@.len() != "do"@.len()); }
            assert("void"@ != "double"@) by { reveal_strlit("void"); reveal_strlit("double"); assert("void"@.len() != "double"@.len()); }
            assert("void"@ != "else"@) by { reveal_strlit("void"); reveal_strlit("else"); assert("void"@[0] != "else"@[0]); }
            assert("void"@ != "enum"@) by { reveal_strlit("void"); reveal_strlit("enum"); assert("void"@[0] != "enum"@[0]); }
            assert("void"@ != "extern"@) by { reveal_strlit("void"); reveal_strlit("extern"); assert("void"@.len() != "extern"@.len()); }
            assert("void"@ != "float"@) by { reveal_strlit("void"); reveal_strlit("float"); assert("void"@.len() != "float"@.len()); }
            assert("void"@ != "for"@) by { reveal_strlit("void"); reveal_strlit("for"); assert("void"@.len() != "for"@.len()); }
            assert("void"@ != "goto"@) by { reveal_strlit("void"); reveal_strlit("goto"); assert("void"@[0] != "goto"@[0]); }
            assert("void"@ != "if"@) by { reveal_strlit("void"); reveal_strlit("if"); assert("void"@.len() != "if"@.len()); }
            assert("void"@ != "int"@) by { reveal_strlit("void"); reveal_strlit("int"); assert("void"@.len() != "int"@.len()); }
            assert("void"@ != "long"@) by { reveal_strlit("void"); reveal_strlit("long"); assert("void"@[0] != "long"@[0]); }
            assert("void"@ != "register"@) by { reveal_strlit("void"); reveal_strlit("register"); assert("void"@.len() != "register"@.len()); }
            assert("void"@ != "return"@) by { reveal_strlit("void"); reveal_strlit("return"); assert("void"@.len() != "return"@.len()); }
            assert("void"@ != "short"@) by { reveal_strlit("void"); reveal_strlit("short"); assert("void"@.len() != "short"@.len()); }
            assert("void"@ != "signed"@) by { reveal_strlit("void"); reveal_strlit("signed"); assert("void"@.len() != "signed"@.len()); }
            assert("void"@ != "sizeof"@) by { reveal_strlit("void"); reveal_strlit("sizeof"); assert("void"@.len() != "sizeof"@.len()); }
            assert("void"@ != "static"@) by { reveal_strlit("void"); reveal_strlit("static"); assert("void"@.len() != "static"@.len()); }
            assert("void"@ != "struct"@) by { reveal_strlit("void"); reveal_strlit("struct"); assert("void"@.len() != "struct"@.len()); }
            assert("void"@ != "switch"@) by { reveal_strlit("void"); reveal_strlit("switch"); assert("void"@.len() != "switch"@.len()); }
            assert("void"@ != "typedef"@) by { reveal_strlit("void"); reveal_strlit("typedef"); assert("void"@.len() != "typedef"@.len()); }
            assert("void"@ != "union"@) by { reveal_strlit("void"); reveal_strlit("union"); assert("void"@.len() != "union"@.len()); }
            assert("void"@ != "unsigned"@) by { reveal_strlit("void"); reveal_strlit("unsigned"); assert("void"@.len() != "unsigned"@.len()); }
        },
        Keyword::Volatile => {
            assert("volatile"@ != "auto"@) by { reveal_strlit("volatile"); reveal_strlit("auto"); assert("volatile"@.len() != "auto"@.len()); }
            assert("volatile"@ != "break"@) by { reveal_strlit("volatile"); reveal_strlit("break"); assert("volatile"@.len() != "break"@.len()); }
            assert("volatile"@ != "case"@) by { reveal_strlit("volatile"); reveal_strlit("case"); assert("volatile"@.len() != "case"@.len()); }
            assert("volatile"@ != "char"@) by { reveal_strlit("volatile"); reveal_strlit("char"); assert("volatile"@.len() != "char"@.len()); }
            assert("volatile"@ != "const"@) by { reveal_strlit("volatile"); reveal_strlit("const"); assert("volatile"@.len() != "const"@.len()); }
            assert("volatile"@ != "continue"@) by { reveal_strlit("volatile"); reveal_strlit("continue"); assert("volatile"@[0] != "continue"@[0]); }
            assert("volatile"@ != "default"@) by { reveal_strlit("volatile"); reveal_strlit("default"); assert("volatile"@.len() != "default"@.len()); }
            assert("volatile"@ != "do"@) by { reveal_strlit("volatile"); reveal_strlit("do"); assert("volatile"@.len() != "do"@.len()); }
            assert("volatile"@ != "double"@) by { reveal_strlit("volatile"); reveal_strlit("double"); assert("volatile"@.len() != "double"@.len()); }
            assert("volatile"@ != "else"@) by { reveal_strlit("volatile"); reveal_strlit("else"); assert("volatile"@.len() != "else"@.len()); }
            assert("volatile"@ != "enum"@) by { reveal_strlit("volatile"); reveal_strlit("enum"); assert("volatile"@.len() != "enum"@.len()); }
            assert("volatile"@ != "extern"@) by { reveal_strlit("volatile"); reveal_strlit("extern"); assert("volatile"@.len() != "extern"@.len()); }
            assert("volatile"@ != "float"@) by { reveal_strlit("volatile"); reveal_strlit("float"); assert("volatile"@.len() != "float"@.len()); }
            assert("volatile"@ != "for"@) by { reveal_strlit("volatile"); reveal_strlit("for"); assert("volatile"@.len() != "for"@.len()); }
            assert("volatile"@ != "goto"@) by { reveal_strlit("volatile"); reveal_strlit("goto"); assert("volatile"@.len() != "goto"@.len()); }
            assert("volatile"@ != "if"@) by { reveal_strlit("volatile"); reveal_strlit("if"); assert("volatile"@.len() != "if"@.len()); }
            assert("volatile"@ != "int"@) by { reveal_strlit("volatile"); reveal_strlit("int"); assert("volatile"@.len() != "int"@.len()); }
            assert("volatile"@ != "long"@) by { reveal_strlit("volatile"); reveal_strlit("long"); assert("volatile"@.len() != "long"@.len()); }
            assert("volatile"@ != "register"@) by { reveal_strlit("volatile"); reveal_strlit("register"); assert("volatile"@[0] != "register"@[0]); }
            assert("volatile"@ != "return"@) by { reveal_strlit("volatile"); reveal_strlit("return"); assert("volatile"@.len() != "return"@.len()); }
            assert("volatile"@ != "short"@) by { reveal_strlit("volatile"); reveal_strlit("short"); assert("volatile"@.len() != "short"@.len()); }
            assert("volatile"@ != "signed"@) by { reveal_strlit("volatile"); reveal_strlit("signed"); assert("volatile"@.len() != "signed"@.len()); }
            assert("volatile"@ != "sizeof"@) by { reveal_strlit("volatile"); reveal_strlit("sizeof"); assert("volatile"@.len() != "sizeof"@.len()); }
            assert("volatile"@ != "static"@) by { reveal_strlit("volatile"); reveal_strlit("static"); assert("volatile"@.len() != "static"@.len()); }
            assert("volatile"@ != "struct"@) by { reveal_strlit("volatile"); reveal_strlit("struct"); assert("volatile"@.len() != "struct"@.len()); }
            assert("volatile"@ != "switch"@) by { reveal_strlit("volatile"); reveal_strlit("switch"); assert("volatile"@.len() != "switch"@.len()); }
            assert("volatile"@ != "typedef"@) by { reveal_strlit("volatile"); reveal_strlit("typedef"); assert("volatile"@.len() != "typedef"@.len()); }
            assert("volatile"@ != "union"@) by { reveal_strlit("volatile"); reveal_strlit("union"); assert("volatile"@.len() != "union"@.len()); }
            assert("volatile"@ != "unsigned"@) by { reveal_strlit("volatile"); reveal_strlit("unsigned"); assert("volatile"@[0] != "unsigned"@[0]); }
            assert("volatile"@ != "void"@) by { reveal_strlit("volatile"); reveal_strlit("void"); assert("volatile"@.len() != "void"@.len()); }
        },
        Keyword::While => {
            assert("while"@ != "auto"@) by { reveal_strlit("while"); reveal_strlit("auto"); assert("while"@.len() != "auto"@.len()); }
            assert("while"@ != "break"@) by { reveal_strlit("while"); reveal_strlit("break"); assert("while"@[0] != "break"@[0]); }
            assert("while"@ != "case"@) by { reveal_strlit("while"); reveal_strlit("case"); assert("while"@.len() != "case"@.len()); }
            assert("while"@ != "char"@) by { reveal_strlit("while"); reveal_strlit("char"); assert("while"@.len() != "char"@.len()); }
            assert("while"@ != "const"@) by { reveal_strlit("while"); reveal_strlit("const"); assert("while"@[0] != "const"@[0]); }
            assert("while"@ != "continue"@) by { reveal_strlit("while"); reveal_strlit("continue"); assert("while"@.len() != "continue"@.len()); }
            assert("while"@ != "default"@) by { reveal_strlit("while"); reveal_strlit("default"); assert("while"@.len() != "default"@.len()); }
            assert("while"@ != "do"@) by { reveal_strlit("while"); reveal_strlit("do"); assert("while"@.len() != "do"@.len()); }
            assert("while"@ != "double"@) by { reveal_strlit("while"); reveal_strlit("double"); assert("while"@.len() != "double"@.len()); }
            assert("while"@ != "else"@) by { reveal_strlit("while"); reveal_strlit("else"); assert("while"@.len() != "else"@.len()); }
            assert("while"@ != "enum"@) by { reveal_strlit("while"); reveal_strlit("enum"); assert("while"@.len() != "enum"@.len()); }
            assert("while"@ != "extern"@) by { reveal_strlit("while"); reveal_strlit("extern"); assert("while"@.len() != "extern"@.len()); }
            assert("while"@ != "float"@) by { reveal_strlit("while"); reveal_strlit("float"); assert("while"@[0] != "float"@[0]); }
            assert("while"@ != "for"@) by { reveal_strlit("while"); reveal_strlit("for"); assert("while"@.len() != "for"@.len()); }
            assert("while"@ != "goto"@) by { reveal_strlit("while"); reveal_strlit("goto"); assert("while"@.len() != "goto"@.len()); }
            assert("while"@ != "if"@) by { reveal_strlit("while"); reveal_strlit("if"); assert("while"@.len() != "if"@.len()); }
            assert("while"@ != "int"@) by { reveal_strlit("while"); reveal_strlit("int"); assert("while"@.len() != "int"@.len()); }
            assert("while"@ != "long"@) by { reveal_strlit("while"); reveal_strlit("long"); assert("while"@.len() != "long"@.len()); }
            assert("while"@ != "register"@) by { reveal_strlit("while"); reveal_strlit("register"); assert("while"@.len() != "register"@.len()); }
            assert("while"@ != "return"@) by { reveal_strlit("while"); reveal_strlit("return"); assert("while"@.len() != "return"@.len()); }
            assert("while"@ != "short"@) by { reveal_strlit("while"); reveal_strlit("short"); assert("while"@[0] != "short"@[0]); }
            assert("while"@ != "signed"@) by { reveal_strlit("while"); reveal_strlit("signed"); assert("while"@.len() != "signed"@.len()); }
            assert("while"@ != "sizeof"@) by { reveal_strlit("while"); reveal_strlit("sizeof"); assert("while"@.len() != "sizeof"@.len()); }
            assert("while"@ != "static"@) by { reveal_strlit("while"); reveal_strlit("static"); assert("while"@.len() != "static"@.len()); }
            assert("while"@ != "struct"@) by { reveal_strlit("while"); reveal_strlit("struct"); assert("while"@.len() != "struct"@.len()); }
            assert("while"@ != "switch"@) by { reveal_strlit("while"); reveal_strlit("switch"); assert("while"@.len() != "switch"@.len()); }
            assert("while"@ != "typedef"@) by { reveal_strlit("while"); reveal_strlit("typedef"); assert("while"@.len() != "typedef"@.len()); }
            assert("while"@ != "union"@) by { reveal_strlit("while"); reveal_strlit("union"); assert("while"@[0] != "union"@[0]); }
            assert("while"@ != "unsigned"@) by { reveal_strlit("while"); reveal_strlit("unsigned"); assert("while"@.len() != "unsigned"@.len()); }
            assert("while"@ != "void"@) by { reveal_strlit("while"); reveal_strlit("void"); assert("while"@.len() != "void"@.len()); }
            assert("while"@ != "volatile"@) by { reveal_strlit("while"); reveal_strlit("volatile"); assert("while"@.len() != "volatile"@.len()); }
        },
    }
}

/// A spelling that reads as a keyword is that keyword's spelling.
pub proof fn lemma_keyword_from_chars_sound(s: Seq<char>)
    ensures
        keyword_from_chars(s) matches Some(k) ==> keyword_chars(k) == s,
{
}

/// Every keyword is spelled with one or more ASCII lower-case letters.
pub proof fn lemma_keyword_chars_lowercase(k: Keyword)
    ensures
        0 < keyword_chars(k).len() <= 8,
        forall|i: int| 0 <= i < keyword_chars(k).len() ==> 'a' <= #[trigger] keyword_chars(k)[i]
            <= 'z',
{
    reveal_strlit("auto");
    reveal_strlit("break");
    reveal_strlit("case");
    reveal_strlit("char");
    reveal_strlit("const");
    reveal_strlit("continue");
    reveal_strlit("default");
    reveal_strlit("do");
    reveal_strlit("double");
    reveal_strlit("else");
    reveal_strlit("enum");
    reveal_strlit("extern");
    reveal_strlit("float");
    reveal_strlit("for");
    reveal_strlit("goto");
    reveal_strlit("if");
    reveal_strlit("int");
    reveal_strlit("long");
    reveal_strlit("register");
    reveal_strlit("return");
    reveal_strlit("short");
    reveal_strlit("signed");
    reveal_strlit("sizeof");
    reveal_strlit("static");
    reveal_strlit("struct");
    reveal_strlit("switch");
    reveal_strlit("typedef");
    reveal_strlit("union");
    reveal_strlit("unsigned");
    reveal_strlit("void");
    reveal_strlit("volatile");
    reveal_strlit("while");
}

/// This error is returned if the given string slice doesn't match a C keyword.
#[derive(Copy, Clone, Debug, PartialEq, Eq)]
pub struct KeywordFromStrError<'a>(pub &'a str);

impl<'a> KeywordFromStrError<'a> {
    /// The message that describes this error.
    pub fn to_string(&self) -> (s: String)
        ensures
            s@ == "str '"@ + self.0@ + "' does not match any C keyword"@,
    {
        let mut s = String::new();
        s.append("str '");
        s.append(self.0);
        s.append("' does not match any C keyword");
        s
    }
}

impl<'a> TryFrom<&'a str> for Keyword {
    type Error = KeywordFromStrError<'a>;

    fn try_from(value: &'a str) -> (r: Result<Keyword, KeywordFromStrError<'a>>) {
        match Keyword::from_text(value) {
            Some(k) => Ok(k),
            None => Err(KeywordFromStrError(value)),
        }
    }
}

impl<'a> TryFromSpecImpl<&'a str> for Keyword {
    open spec fn obeys_try_from_spec() -> bool {
        true
    }

    open spec fn try_from_spec(v: &'a str) -> Result<Keyword, KeywordFromStrError<'a>> {
        match keyword_from_chars(v@) {
            Some(k) => Ok(k),
            None => Err(KeywordFromStrError(v)),
        }
    }
}

/// An individual symbol with meaning in C.
#[derive(Copy, Clone, Debug, PartialEq, Eq, Structural)]
pub enum Symbol {
    /// `(`
    OpenParenthesis,
    /// `)`
    CloseParenthesis,
    /// `{`
    OpenBrace,
    /// `}`
    CloseBrace,
    /// `;`
    Semicolon,
}

/// The character that spells a symbol.
pub open spec fn symbol_char(s: Symbol) -> char {
    match s {
        Symbol::OpenParenthesis => '(',
        Symbol::CloseParenthesis => ')',
        Symbol::OpenBrace => '{',
        Symbol::CloseBrace => '}',
        Symbol::Semicolon => ';',
    }
}

/// The static string that spells a symbol.
pub open spec fn symbol_static_str(s: Symbol) -> &'static str {
    match s {
        Symbol::OpenParenthesis => "(",
        Symbol::CloseParenthesis => ")",
        Symbol::OpenBrace => "{",
        Symbol::CloseBrace => "}",
        Symbol::Semicolon => ";",
    }
}

/// The symbol spelled by the character `c`, if there is one; symbols are tried in declaration order.
pub open spec fn symbol_from_char(c: char) -> Option<Symbol> {
    if c == '(' {
        Some(Symbol::OpenParenthesis)
    } else if c == ')' {
        Some(Symbol::CloseParenthesis)
    } else if c == '{' {
        Some(Symbol::OpenBrace)
    } else if c == '}' {
        Some(Symbol::CloseBrace)
    } else if c == ';' {
        Some(Symbol::Semicolon)
    } else {
        None
    }
}

/// All symbols, in declaration order.
pub open spec fn all_symbols() -> Seq<Symbol> {
    seq![
        Symbol::OpenParenthesis,
        Symbol::CloseParenthesis,
        Symbol::OpenBrace,
        Symbol::CloseBrace,
        Symbol::Semicolon,
    ]
}

/// Reading back the character of a symbol gives that symbol, and the
/// static string of a symbol holds exactly its character.
pub proof fn lemma_symbol_round_trip(s: Symbol)
    ensures
        symbol_from_char(symbol_char(s)) == Some(s),
        symbol_static_str(s)@ == seq![symbol_char(s)],
{
    reveal_strlit("(");
    reveal_strlit(")");
    reveal_strlit("{");
    reveal_strlit("}");
    reveal_strlit(";");
}

impl Symbol {
    /// The spelling of this symbol.
    pub fn as_str(&self) -> (r: &'static str)
        ensures
            r == symbol_static_str(*self),
            r@ == seq![symbol_char(*self)],
    {
        proof {
            lemma_symbol_round_trip(*self);
        }
        match self {
            Symbol::OpenParenthesis => "(",
            Symbol::CloseParenthesis => ")",
            Symbol::OpenBrace => "{",
            Symbol::CloseBrace => "}",
            Symbol::Semicolon => ";",
        }
    }

    /// The character of this symbol.
    pub fn as_char(&self) -> (c: char)
        ensures
            c == symbol_char(*self),
    {
        match self {
            Symbol::OpenParenthesis => '(',
            Symbol::CloseParenthesis => ')',
            Symbol::OpenBrace => '{',
            Symbol::CloseBrace => '}',
            Symbol::Semicolon => ';',
        }
    }

    /// All symbols, in declaration order.
    pub fn iter() -> (v: Vec<Symbol>)
        ensures
            v@ == all_symbols(),
    {
        let v = vec![
            Symbol::OpenParenthesis,
            Symbol::CloseParenthesis,
            Symbol::OpenBrace,
            Symbol::CloseBrace,
            Symbol::Semicolon,
        ];
        assert(v@ =~= all_symbols());
        v
    }

    /// The spelling of this symbol, as `Display` would write it.
    pub fn to_string(&self) -> (s: String)
        ensures
            s@ == seq![symbol_char(*self)],
    {
        let mut s = String::new();
        s.append(self.as_str());
        assert(s@ =~= seq![symbol_char(*self)]);
        s
    }
}

impl From<Symbol> for &'static str {
    fn from(value: Symbol) -> (r: &'static str) {
        value.as_str()
    }
}

impl FromSpecImpl<Symbol> for &'static str {
    open spec fn obeys_from_spec() -> bool {
        true
    }

    open spec fn from_spec(v: Symbol) -> &'static str {
        symbol_static_str(v)
    }
}

impl From<&Symbol> for &'static str {
    fn from(value: &Symbol) -> (r: &'static str) {
        value.as_str()
    }
}

impl FromSpecImpl<&Symbol> for &'static str {
    open spec fn obeys_from_spec() -> bool {
        true
    }

    open spec fn from_spec(v: &Symbol) -> &'static str {
        symbol_static_str(*v)
    }
}

impl From<Symbol> for char {
    fn from(value: Symbol) -> (c: char) {
        value.as_char()
    }
}

impl FromSpecImpl<Symbol> for char {
    open spec fn obeys_from_spec() -> bool {
        true
    }

    open spec fn from_spec(v: Symbol) -> char {
        symbol_char(v)
    }
}

/// A particular kind of C code token.
#[derive(Clone, Debug, PartialEq, Eq)]
pub enum TokenKind<'a> {
    /// A C keyword (`int`, `void`, `return`, etc.).
    Keyword(Keyword),
    /// A C identifier (variable name, function name, etc.).
    Identifier(&'a str),
    /// A C integer constant.
    Constant(&'a str),
    /// A single-character symbol (parenthesis, brace, semicolon, etc.).
    Symbol(Symbol),
}

/// The mathematical value of a [`TokenKind`]: its texts as character sequences.
pub enum KindView {
    /// A keyword.
    Keyword(Keyword),
    /// An identifier with the given text.
    Identifier(Seq<char>),
    /// A constant with the given text.
    Constant(Seq<char>),
    /// A symbol.
    Symbol(Symbol),
}

impl<'a> View for TokenKind<'a> {
    type V = KindView;

    open spec fn view(&self) -> KindView {
        match self {
            TokenKind::Keyword(k) => KindView::Keyword(*k),
            TokenKind::Identifier(s) => KindView::Identifier(s@),
            TokenKind::Constant(s) => KindView::Constant(s@),
            TokenKind::Symbol(s) => KindView::Symbol(*s),
        }
    }
}

/// The source text of a token of the given kind.
pub open spec fn kind_text(k: KindView) -> Seq<char> {
    match k {
        KindView::Keyword(kw) => keyword_chars(kw),
        KindView::Identifier(s) => s,
        KindView::Constant(s) => s,
        KindView::Symbol(sy) => seq![symbol_char(sy)],
    }
}

/// The length in bytes of a token of the given kind.
pub open spec fn kind_len(k: KindView) -> nat {
    match k {
        KindView::Keyword(kw) => keyword_chars(kw).len(),
        KindView::Identifier(s) => utf8_len(s),
        KindView::Constant(s) => utf8_len(s),
        KindView::Symbol(_) => 1,
    }
}

/// The mathematical value of a [`Token`].
pub struct TokenView {
    /// What the token is.
    pub kind: KindView,
    /// Its length in bytes.
    pub len: nat,
    /// The byte index at which it starts in the source.
    pub index: nat,
}

/// A token of C code.
#[derive(Clone, Debug, PartialEq, Eq)]
pub struct Token<'a> {
    pub(crate) kind: TokenKind<'a>,
    len: usize,
    index: usize,
}

impl<'a> View for Token<'a> {
    type V = TokenView;

    closed spec fn view(&self) -> TokenView {
        TokenView { kind: self.kind@, len: self.len as nat, index: self.index as nat }
    }
}

/// The token that [`Token::new`] makes from a kind and an index.
pub open spec fn new_token_view(kind: KindView, index: nat) -> TokenView {
    TokenView { kind, len: kind_len(kind), index }
}

/// The text that [`Token::to_debug_string`] gives for a token.
pub open spec fn debug_text(t: TokenView) -> Seq<char> {
    match t.kind {
        KindView::Keyword(kw) => "keyword \""@ + keyword_chars(kw) + "\" at index "@ + decimal(
            t.index,
        ),
        KindView::Identifier(i) => "identifier \""@ + i + "\" at index "@ + decimal(t.index),
        KindView::Constant(c) => "constant `"@ + c + "` at index "@ + decimal(t.index),
        KindView::Symbol(s) => "symbol `"@ + seq![symbol_char(s)] + "` at index "@ + decimal(
            t.index,
        ),
    }
}

/// The source text of a token kind, as a string slice.
pub open spec fn kind_static_str<'a>(k: TokenKind<'a>) -> &'a str {
    match k {
        TokenKind::Keyword(keyword) => keyword_static_str(keyword),
        TokenKind::Identifier(ident) => ident,
        TokenKind::Constant(constant) => constant,
        TokenKind::Symbol(symbol) => symbol_static_str(symbol),
    }
}

impl<'a> From<TokenKind<'a>> for &'a str {
    fn from(value: TokenKind<'a>) -> (r: &'a str) {
        let r = match value {
            TokenKind::Keyword(keyword) => keyword.as_str(),
            TokenKind::Identifier(ident) => ident,
            TokenKind::Constant(constant) => constant,
            TokenKind::Symbol(symbol) => symbol.as_str(),
        };
        r
    }
}

impl<'a> FromSpecImpl<TokenKind<'a>> for &'a str {
    open spec fn obeys_from_spec() -> bool {
        true
    }

    open spec fn from_spec(v: TokenKind<'a>) -> &'a str {
        kind_static_str(v)
    }
}

/// The text of a token kind as a string slice holds the kind's source text.
pub proof fn lemma_kind_static_str<'a>(k: TokenKind<'a>)
    ensures
        kind_static_str(k)@ == kind_text(k@),
{
    match k {
        TokenKind::Keyword(keyword) => {
            lemma_keyword_static_str(keyword);
        },
        TokenKind::Symbol(symbol) => {
            lemma_symbol_round_trip(symbol);
        },
        _ => {},
    }
}

impl<'a> Token<'a> {
    /// Create an empty placeholder token.
    pub fn create_placeholder() -> (t: Self)
        ensures
            t@ == new_token_view(KindView::Identifier(Seq::empty()), 0),
            t@.len == 0,
    {
        proof {
            reveal_strlit("");
            assert(""@ =~= Seq::<char>::empty());
        }
        Self::new(TokenKind::Identifier(""), 0)
    }

    /// Create a new token.
    pub fn new(kind: TokenKind<'a>, index: usize) -> (t: Self)
        requires
            kind_len(kind@) <= usize::MAX,
        ensures
            t@ == new_token_view(kind@, index as nat),
    {
        let len = match kind {
            TokenKind::Keyword(keyword) => {
                proof {
                    lemma_keyword_chars_lowercase(keyword);
                    lemma_utf8_len_ascii(keyword_chars(keyword));
                }
                keyword.as_str().len()
            },
            TokenKind::Identifier(ident) => ident.len(),
            TokenKind::Constant(constant) => constant.len(),
            TokenKind::Symbol(_) => 1,
        };
        Self { kind, len, index }
    }

    /// If the start of the provided data satisfies the `match_fn`, that matched substring
    /// satisfies the `token_fn`, and the length of the matched string is longer than the current
    /// token length, then update this token.
    pub fn try_update<S, T>(&mut self, data: &'a str, index: usize, match_fn: S, token_fn: T) where
        S: Fn(&'a str) -> Option<&'a str>,
        T: Fn(&'a str) -> Option<TokenKind<'a>>,

        requires
            call_requires(match_fn, (data,)),
            forall|s: &'a str| call_requires(token_fn, (s,)),
        ensures
            ({
                ||| exists|ns: &'a str, k: TokenKind<'a>|
                    {
                        &&& call_ensures(match_fn, (data,), Some(ns))
                        &&& ns.len() > old(self)@.len
                        &&& call_ensures(token_fn, (ns,), Some(k))
                        &&& final(self)@ == TokenView { kind: k@, len: ns.len() as nat, index: index as nat }
                    }
                ||| {
                    &&& final(self)@ == old(self)@
                    &&& {
                        ||| call_ensures(match_fn, (data,), None)
                        ||| exists|ns: &'a str|
                            {
                                &&& call_ensures(match_fn, (data,), Some(ns))
                                &&& (ns.len() <= old(self)@.len || call_ensures(
                                    token_fn,
                                    (ns,),
                                    None,
                                ))
                            }
                    }
                }
            }),
            final(self)@.len >= old(self)@.len,
    {
        let matched = match_fn(data);
        if let Some(new_str) = matched {
            if new_str.len() > self.len {
                let made = token_fn(new_str);
                if let Some(token_kind) = made {
                    *self = Self { kind: token_kind, len: new_str.len(), index };
                    assert(call_ensures(token_fn, (new_str,), Some(token_kind)));
                    assert(call_ensures(match_fn, (data,), Some(new_str)));
                    assert(self@ == TokenView { kind: token_kind@, len: new_str.len() as nat, index: index as nat });
                } else {
                    assert(call_ensures(token_fn, (new_str,), None::<TokenKind<'a>>));
                }
            } else {
                assert(call_ensures(match_fn, (data,), Some(new_str)));
            }
        } else {
            assert(call_ensures(match_fn, (data,), None::<&'a str>));
        }
    }

    /// Get the [`TokenKind`] of this token.
    pub fn kind(&self) -> (k: &TokenKind<'a>)
        ensures
            k@ == self@.kind,
    {
        &self.kind
    }

    /// Get the index of this token.
    pub fn index(&self) -> (i: usize)
        ensures
            i == self@.index,
    {
        self.index
    }

    /// Get the length of this token.
    pub fn len(&self) -> (l: usize)
        ensures
            l == self@.len,
    {
        self.len
    }

    /// Check whether or not this token is empty.
    pub fn is_empty(&self) -> (b: bool)
        ensures
            b == (self@.len == 0),
    {
        self.len == 0
    }

    /// Convert to a [`String`] useful for error reporting.
    pub fn to_debug_string(&self) -> (s: String)
        ensures
            s@ == debug_text(self@),
    {
        let mut s = String::new();
        match self.kind {
            TokenKind::Keyword(kw) => {
                s.append("keyword \"");
                s.append(kw.as_str());
                s.append("\" at index ");
            },
            TokenKind::Identifier(i) => {
                s.append("identifier \"");
                s.append(i);
                s.append("\" at index ");
            },
            TokenKind::Constant(c) => {
                s.append("constant `");
                s.append(c);
                s.append("` at index ");
            },
            TokenKind::Symbol(sy) => {
                s.append("symbol `");
                s.append(sy.as_str());
                s.append("` at index ");
            },
        }
        push_decimal(&mut s, self.index as u128);
        assert(s@ =~= debug_text(self@));
        s
    }
}

} // verus!
