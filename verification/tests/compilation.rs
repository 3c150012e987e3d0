use comemo::Prehashed;
use typst::diag::{FileError, FileResult, Severity, SourceDiagnostic};
use typst::eval::Tracer;
use typst::foundations::{Bytes, Datetime, Smart};
use typst::layout::Abs;
use typst::model::Document;
use typst::syntax::{FileId, LinkedNode, Source, Span};
use typst::text::{Font, FontBook};
use typst::{Library, World};
use typst_bridge::compilation::{get_rendered_document, TypstCompilationError, PAGE_MARGIN_PT};
use typst_bridge::diagnostic::{
    EngineDiagnostic, EngineSeverity, SourceDiagnosticResult, SourceDiagnosticResultSeverity,
};
use typst_bridge::source_map::SourceMap;

/// A world of one source file, without fonts or other files.
struct OneFile {
    library: Prehashed<Library>,
    book: Prehashed<FontBook>,
    source: Source,
}

impl OneFile {
    fn new(source: Source) -> Self {
        Self {
            library: Prehashed::new(Library::default()),
            book: Prehashed::new(FontBook::new()),
            source,
        }
    }
}

impl World for OneFile {
    fn library(&self) -> &Prehashed<Library> {
        &self.library
    }

    fn book(&self) -> &Prehashed<FontBook> {
        &self.book
    }

    fn main(&self) -> Source {
        self.source.clone()
    }

    fn source(&self, id: FileId) -> FileResult<Source> {
        if id == self.source.id() {
            Ok(self.source.clone())
        } else {
            Err(FileError::NotFound(id.vpath().as_rootless_path().into()))
        }
    }

    fn file(&self, id: FileId) -> FileResult<Bytes> {
        Err(FileError::NotFound(id.vpath().as_rootless_path().into()))
    }

    fn font(&self, _index: usize) -> Option<Font> {
        None
    }

    fn today(&self, _offset: Option<i64>) -> Option<Datetime> {
        None
    }
}

fn engine_diagnostic(diagnostic: &SourceDiagnostic) -> EngineDiagnostic {
    EngineDiagnostic {
        severity: match diagnostic.severity {
            Severity::Error => EngineSeverity::Error,
            Severity::Warning => EngineSeverity::Warning,
        },
        span: diagnostic.span,
        message: diagnostic.message.to_string(),
    }
}

/// Compiles `user` behind the preamble and returns the compiled file together
/// with what the engine came to.
fn compile(user: &str) -> (SourceMap, Result<Document, Vec<EngineDiagnostic>>) {
    let map = SourceMap::compiled(user.to_owned());
    let world = OneFile::new(map.source().clone());
    let mut tracer = Tracer::default();
    let outcome = match typst::compile(&world, &mut tracer) {
        Ok(document) => Ok(document),
        Err(errors) => Err(errors
            .iter()
            .chain(tracer.warnings().iter())
            .map(engine_diagnostic)
            .collect()),
    };
    (map, outcome)
}

fn vector(user: &str) -> Result<String, TypstCompilationError> {
    let (map, outcome) = compile(user);
    let document = get_rendered_document(&map, outcome)?;
    Ok(typst_svg::svg_merged(&document, Abs::pt(PAGE_MARGIN_PT.into())))
}

fn paginated(user: &str) -> Result<Vec<u8>, TypstCompilationError> {
    let (map, outcome) = compile(user);
    let document = get_rendered_document(&map, outcome)?;
    Ok(typst_pdf::pdf(&document, Smart::Auto, None))
}

fn at(map: &SourceMap, severity: EngineSeverity, offset: usize, message: &str) -> EngineDiagnostic {
    let span = LinkedNode::new(map.source().root()).leaf_at(offset).unwrap().span();
    EngineDiagnostic { severity, span, message: message.to_owned() }
}

fn failure(map: &SourceMap, diagnostics: Vec<EngineDiagnostic>) -> TypstCompilationError {
    match get_rendered_document(map, Err(diagnostics)) {
        Ok(_) => panic!("a failure was handed in"),
        Err(error) => error,
    }
}

/// The compiled file for `user`, and where `user` begins in it.
fn compiled(user: &str) -> (SourceMap, usize) {
    let map = SourceMap::compiled(user.to_owned());
    let shift = map.source().text().len() - user.len();
    (map, shift)
}

#[test]
fn valid_markup_renders_to_a_vector_image() {
    let image = vector("= Title\n\nA paragraph with *strong* text and `code`.").ok().unwrap();
    assert!(!image.is_empty());
    assert!(image.starts_with("<svg"));
}

#[test]
fn valid_markup_renders_to_a_paginated_file() {
    let file = paginated("= Title\n\nA paragraph.\n#pagebreak()\nSecond page.").ok().unwrap();
    assert!(!file.is_empty());
    assert!(file.starts_with(b"%PDF-"));
}

#[test]
fn empty_source_renders() {
    assert!(!vector("").ok().unwrap().is_empty());
    assert!(!paginated("").ok().unwrap().is_empty());
}

#[test]
fn margin_of_a_vector_image_is_two_points() {
    assert_eq!(PAGE_MARGIN_PT, 2);
    let page = "#set page(width: 100pt, height: 50pt, margin: 0pt)\n";
    let image = vector(&format!("{page}#rect(width: 10pt, height: 10pt)")).ok().unwrap();
    assert!(image.contains("viewBox=\"0 0 104 54\""), "{image}");
    let image =
        vector(&format!("{page}#rect(width: 10pt)\n#pagebreak()\n#rect(width: 10pt)")).ok().unwrap();
    assert!(image.contains("viewBox=\"0 0 104 106\""), "{image}");
}

#[test]
fn document_is_passed_on() {
    let (map, outcome) = compile("#set document(title: \"Report\")\nBody");
    let document = get_rendered_document(&map, outcome).ok().unwrap();
    assert_eq!(document.title.as_deref(), Some("Report"));
    assert_eq!(document.pages.len(), 1);
}

#[test]
fn document_made_by_hand_is_passed_on() {
    let map = SourceMap::compiled(String::new());
    let mut document = Document::default();
    document.title = Some("by hand".into());
    let passed = get_rendered_document(&map, Ok(document)).ok().unwrap();
    assert_eq!(passed.title.as_deref(), Some("by hand"));
    assert!(passed.pages.is_empty());
}

#[test]
fn unclosed_bracket_is_one_error_on_line_one() {
    let (map, outcome) = compile("#[unclosed");
    assert!(outcome.is_err());
    let error = get_rendered_document(&map, outcome).unwrap_err();
    let diagnostics = error.diagnostics();
    assert_eq!(diagnostics.len(), 1);
    assert!(matches!(diagnostics[0].severity(), SourceDiagnosticResultSeverity::Error));
    assert_eq!(diagnostics[0].line_start(), 1);
    assert_eq!(diagnostics[0].line_end(), 1);
    assert_eq!(diagnostics[0].message(), "unclosed delimiter");
    assert_eq!(diagnostics[0].column_start(), 1);
    assert_eq!(error.message(), "- [Error] unclosed delimiter. Line: 1, Column: 1.");
}

#[test]
fn failure_is_the_same_for_both_renderers() {
    let vector = vector("text\n\n#let x = ").unwrap_err();
    let paginated = paginated("text\n\n#let x = ").unwrap_err();
    assert_eq!(vector.message(), paginated.message());
    assert_eq!(vector.diagnostics().len(), 1);
    assert_eq!(vector.diagnostics()[0].line_start(), 3);
}

#[test]
fn error_on_a_later_line_keeps_its_line_and_column() {
    let (map, outcome) = compile("= Title\n\nsome text\n  #unknown_name\nmore");
    let error = get_rendered_document(&map, outcome).unwrap_err();
    let diagnostics = error.diagnostics();
    assert_eq!(diagnostics.len(), 1);
    assert_eq!(diagnostics[0].message(), "unknown variable: unknown_name");
    assert_eq!((diagnostics[0].line_start(), diagnostics[0].column_start()), (4, 3));
    assert_eq!((diagnostics[0].line_end(), diagnostics[0].column_end()), (4, 15));
}

#[test]
fn several_syntax_errors_come_in_the_order_of_the_engine() {
    let (map, outcome) = compile("#let = 1\n\n#(1 +)\n#let y = (");
    let engine: Vec<String> =
        outcome.as_ref().unwrap_err().iter().map(|e| e.message.clone()).collect();
    assert!(engine.len() >= 3);
    let error = get_rendered_document(&map, outcome).unwrap_err();
    let listed: Vec<String> = error.diagnostics().iter().map(|d| d.message()).collect();
    assert_eq!(listed, engine);
    let lines: Vec<u64> = error.diagnostics().iter().map(|d| d.line_start()).collect();
    assert_eq!(lines.first(), Some(&1));
    assert_eq!(lines.last(), Some(&4));
}

#[test]
fn each_record_is_the_one_that_the_constructor_gives() {
    let (map, outcome) = compile("#let = 1\n\n#(1 +)\n#let y = (");
    let engine = outcome.unwrap_err();
    let alone: Vec<SourceDiagnosticResult> =
        engine.iter().map(|e| SourceDiagnosticResult::new(&map, e)).collect();
    let listed = failure(&map, engine).diagnostics();
    assert_eq!(listed.len(), alone.len());
    for (one, other) in listed.iter().zip(&alone) {
        assert_eq!(one.message, other.message);
        assert!(one.severity == other.severity);
        assert_eq!(
            (one.line_start, one.column_start, one.line_end, one.column_end),
            (other.line_start, other.column_start, other.line_end, other.column_end)
        );
    }
}

#[test]
fn order_of_diagnostics_is_kept() {
    let (map, shift) = compiled("one\ntwo\nthree");
    let diagnostics = vec![
        at(&map, EngineSeverity::Error, shift + 9, "d1"),
        at(&map, EngineSeverity::Warning, shift + 1, "d2"),
        at(&map, EngineSeverity::Error, shift + 5, "d3"),
    ];
    let error = failure(&map, diagnostics);
    let listed = error.diagnostics();
    let seen: Vec<(String, u64)> = listed.iter().map(|d| (d.message(), d.line_start())).collect();
    assert_eq!(
        seen,
        vec![("d1".to_owned(), 3), ("d2".to_owned(), 1), ("d3".to_owned(), 2)]
    );
}

#[test]
fn diagnostics_with_the_same_place_are_all_kept() {
    let (map, shift) = compiled("same");
    let diagnostics = vec![
        at(&map, EngineSeverity::Error, shift + 2, "again"),
        at(&map, EngineSeverity::Error, shift + 2, "again"),
    ];
    let error = failure(&map, diagnostics);
    assert_eq!(error.diagnostics().len(), 2);
    assert_eq!(
        error.message(),
        "- [Error] again. Line: 1, Column: 0.\n- [Error] again. Line: 1, Column: 0."
    );
}

#[test]
fn message_has_one_line_for_each_diagnostic() {
    let (map, shift) = compiled("first *line*\nsecond line");
    let diagnostics = vec![
        at(&map, EngineSeverity::Error, shift + 7, "unexpected thing"),
        at(&map, EngineSeverity::Warning, shift + 15, "doubtful thing"),
    ];
    let message = failure(&map, diagnostics).message();
    let lines: Vec<&str> = message.lines().collect();
    assert_eq!(lines.len(), 2);
    assert_eq!(message.split('\n').count(), 2);
    assert!(lines[0].starts_with("- [Error]"));
    assert!(lines[1].starts_with("- [Warning]"));
    assert_eq!(lines[0], "- [Error] unexpected thing. Line: 1, Column: 6.");
    assert_eq!(lines[1], "- [Warning] doubtful thing. Line: 2, Column: 0.");
}

#[test]
fn message_of_no_diagnostics_is_empty() {
    let (map, _) = compiled("");
    let error = failure(&map, Vec::new());
    assert_eq!(error.message(), "");
    assert!(error.diagnostics().is_empty());
}

#[test]
fn numbers_in_the_message_are_decimal() {
    let mut user = "\n".repeat(1234);
    user.push_str(&" ".repeat(10_009));
    user.push_str("*x*");
    let (map, shift) = compiled(&user);
    let diagnostics = vec![at(&map, EngineSeverity::Warning, shift + user.len() - 1, "far away")];
    let error = failure(&map, diagnostics);
    assert_eq!(error.message(), "- [Warning] far away. Line: 1235, Column: 10010.");
    assert_eq!(error.diagnostics()[0].line_start(), 1235);
    assert_eq!(error.diagnostics()[0].column_start(), 10_010);
}

#[test]
fn diagnostics_are_copies_of_the_records() {
    let (map, _) = compiled("a *b");
    let diagnostics = vec![EngineDiagnostic {
        severity: EngineSeverity::Error,
        span: Span::detached(),
        message: "detached".to_owned(),
    }];
    let error = failure(&map, diagnostics);
    let first = error.diagnostics();
    let second = error.diagnostics();
    assert_eq!(first.len(), 1);
    assert_eq!(first[0].message(), second[0].message());
    assert_eq!(first[0].message(), "detached");
    assert_eq!((first[0].line_start(), first[0].column_start()), (1, 0));
    assert_eq!((first[0].line_end(), first[0].column_end()), (1, 0));
}

#[test]
fn warnings_of_a_failure_follow_its_errors() {
    let (map, outcome) = compile("a ** b\n#panic(\"stop\")");
    let error = get_rendered_document(&map, outcome).unwrap_err();
    let diagnostics = error.diagnostics();
    assert_eq!(diagnostics.len(), 2);
    assert!(matches!(diagnostics[0].severity(), SourceDiagnosticResultSeverity::Error));
    assert_eq!((diagnostics[0].line_start(), diagnostics[0].column_start()), (2, 1));
    assert!(matches!(diagnostics[1].severity(), SourceDiagnosticResultSeverity::Warning));
    assert_eq!(diagnostics[1].message(), "no text within stars");
    assert_eq!((diagnostics[1].line_start(), diagnostics[1].column_start()), (1, 2));
    assert_eq!((diagnostics[1].line_end(), diagnostics[1].column_end()), (1, 4));
    assert_eq!(
        error.message(),
        "- [Error] panicked with: \"stop\". Line: 2, Column: 1.\n- [Warning] no text within stars. Line: 1, Column: 2."
    );
}
