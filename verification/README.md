# cfern

A small C compiler front end (lexer, parser, assembly generator and code
emitter for programs of the form `int main(void) { return <constant>; }`),
written in Verus with its behaviour stated in contracts and proved.

- `src/` is the verified library: tokens, the lexers, the parser, the
  assembly model and its text form, output path naming and error locations.
- `app/` is the command-line driver: argument parsing, running the system
  preprocessor and assembler, file I/O and error reports.
- `tests/` runs the library on concrete inputs.
