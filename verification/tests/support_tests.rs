use cfern::paths::{
    assembly_path, compiled_path, executable_path, preprocessed_path, OutputPathError,
};
use cfern::parse_cli::{Cli, Stage};
use cfern::report::error_location;

#[test]
fn output_paths() {
    assert_eq!(preprocessed_path("dir/prog.c"), Ok("dir/prog.i".to_string()));
    assert_eq!(assembly_path("prog.c"), Ok("prog.s".to_string()));
    assert_eq!(compiled_path("prog.i"), Ok("prog..s".to_string()));
    assert_eq!(executable_path("prog.s"), Ok("prog".to_string()));
    assert_eq!(preprocessed_path(""), Err(OutputPathError::NoInputFileName));
    assert_eq!(compiled_path("/"), Err(OutputPathError::NoPreprocessedFileName));
    assert_eq!(
        OutputPathError::NoInputFileName.to_string(),
        "no input file name given"
    );
    assert_eq!(
        OutputPathError::NoPreprocessedFileName.to_string(),
        "no preprocessed file name given"
    );
}

fn cli(lex: bool, parse: bool, codegen: bool, assembly: bool) -> Cli {
    Cli {
        lex,
        parse,
        codegen,
        assembly,
        input_file: "a.c".to_string(),
    }
}

#[test]
fn stages() {
    assert_eq!(cli(false, false, false, false).last_stage(), Stage::Link);
    assert_eq!(cli(true, false, false, false).last_stage(), Stage::Lex);
    assert_eq!(cli(false, true, false, false).last_stage(), Stage::Parse);
    assert_eq!(cli(false, false, true, false).last_stage(), Stage::Codegen);
    assert_eq!(cli(false, false, false, true).last_stage(), Stage::Assembly);
}

#[test]
fn locations() {
    let data = "int main(void) {\n  retur 2;\n}";
    let loc = error_location(data, 19);
    assert_eq!(loc.line_index, 1);
    assert_eq!(loc.col_index, 2);
    assert_eq!(loc.consumed_line, "  ");
    assert_eq!(loc.remaining_line, "retur 2;");

    let loc = error_location("ça va", 3);
    assert_eq!(loc.line_index, 0);
    assert_eq!(loc.col_index, 3);
    assert_eq!(loc.consumed_line, "ça");
    assert_eq!(loc.remaining_line, " va");

    let loc = error_location("a\n", 2);
    assert_eq!(loc.line_index, 1);
    assert_eq!(loc.col_index, 0);
    assert_eq!(loc.consumed_line, "");
    assert_eq!(loc.remaining_line, "");
}
