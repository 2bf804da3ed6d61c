use tty_doc::document::{FileProbe, LoadError};
use tty_doc::highlight::Fragment;
use tty_doc::text::{count_lines, stats_of, DocStats};
use tty_doc::viewer::Viewer;

fn joined_text(lines: &Vec<Vec<Fragment>>) -> String {
    let mut out = String::new();
    for line in lines {
        for frag in line {
            out.push_str(&frag.text);
        }
    }
    out
}

fn loaded(path: &str, text: &str) -> Viewer {
    let mut v = Viewer::new(path.to_string());
    v.load_file(FileProbe::Text(text.to_string()));
    v
}

#[test]
fn markdown_file_loads_with_two_lines() {
    let mut v = Viewer::new("notes.md".to_string());
    let req = v.load_file(FileProbe::Text("# Title\nBody text".to_string()));
    assert!(v.error.is_none());
    assert_eq!(v.file_content, "# Title\nBody text");
    let stats = v.file_info().unwrap();
    assert_eq!(stats.lines, 2);
    let lines = v.highlighted.as_ref().unwrap();
    assert_eq!(lines.len(), 2);
    assert_eq!(joined_text(lines), "# Title\nBody text");
    assert!(req.is_some());
}

#[test]
fn empty_path_reports_missing_argument() {
    let v = Viewer::new(String::new());
    let err = v.error.as_ref().unwrap();
    assert!(matches!(err, LoadError::NoPath));
    assert_eq!(err.message(), "No file path provided. Usage: tty_doc <file_path>");
    assert!(err.message().starts_with("No file path provided"));
    assert_eq!(v.file_content, "");
    assert!(v.file_info().is_none());
}

#[test]
fn empty_path_load_keeps_error() {
    let mut v = Viewer::default();
    let req = v.load_file(FileProbe::Text("ignored".to_string()));
    assert!(req.is_none());
    assert!(matches!(v.error, Some(LoadError::NoPath)));
    assert_eq!(v.file_content, "");
}

#[test]
fn missing_file_is_not_found() {
    let mut v = Viewer::new("/no/such/file.txt".to_string());
    let req = v.load_file(FileProbe::Missing);
    assert!(req.is_none());
    let err = v.error.as_ref().unwrap();
    assert_eq!(err.message(), "File not found: /no/such/file.txt");
    assert_eq!(v.file_content, "");
    assert!(v.highlighted.is_none());
}

#[test]
fn missing_file_after_text_clears_content() {
    let mut v = loaded("a.txt", "hello");
    v.load_file(FileProbe::Missing);
    assert_eq!(v.file_content, "");
    assert!(v.highlighted.is_none());
    assert!(matches!(v.error, Some(LoadError::NotFound(_))));
}

#[test]
fn unreadable_file_reports_reader_error() {
    let mut v = Viewer::new("bin.dat".to_string());
    v.load_file(FileProbe::Unreadable("stream did not contain valid UTF-8".to_string()));
    let err = v.error.as_ref().unwrap();
    assert_eq!(err.message(), "Error reading file: stream did not contain valid UTF-8");
    assert_eq!(v.file_content, "");
}

#[test]
fn readable_file_keeps_exact_text() {
    let text = "línea uno\r\nline two\n\n\tend";
    let v = loaded("notes.txt", text);
    assert!(v.error.is_none());
    assert_eq!(v.file_content, text);
}

#[test]
fn retry_after_error_succeeds() {
    let mut v = Viewer::new("later.txt".to_string());
    v.load_file(FileProbe::Missing);
    assert!(v.error.is_some());
    let req = v.load_file(FileProbe::Text("now here".to_string()));
    assert!(v.error.is_none());
    assert_eq!(v.file_content, "now here");
    assert!(req.is_some());
}

#[test]
fn reload_is_idempotent() {
    let text = "fn main() {\n    println!(\"hi\");\n}\n";
    let mut v = loaded("main.rs", text);
    let first_content = v.file_content.clone();
    let first_stats = v.file_info();
    let first_lines = joined_text(v.highlighted.as_ref().unwrap());
    let again = v.load_file(FileProbe::Text(text.to_string()));
    assert!(again.is_none());
    assert_eq!(v.file_content, first_content);
    assert_eq!(v.file_info(), first_stats);
    assert_eq!(joined_text(v.highlighted.as_ref().unwrap()), first_lines);
}

#[test]
fn stats_of_ascii_text() {
    assert_eq!(stats_of("a\nb\n"), DocStats { lines: 2, chars: 4, bytes: 4 });
}

#[test]
fn stats_of_multibyte_text() {
    let s = stats_of("héllo wörld");
    assert_eq!(s, DocStats { lines: 1, chars: 11, bytes: 13 });
    assert!(s.bytes >= s.chars);
}

#[test]
fn stats_of_empty_and_newline_only() {
    assert_eq!(stats_of(""), DocStats { lines: 0, chars: 0, bytes: 0 });
    assert_eq!(stats_of("\n"), DocStats { lines: 1, chars: 1, bytes: 1 });
    assert_eq!(stats_of("\n\n"), DocStats { lines: 2, chars: 2, bytes: 2 });
}

#[test]
fn line_count_matches_terminators() {
    assert_eq!(count_lines("one"), 1);
    assert_eq!(count_lines("one\ntwo"), 2);
    assert_eq!(count_lines("one\ntwo\n"), 2);
    assert_eq!(count_lines("a\r\nb\r\n"), 2);
    assert_eq!(count_lines("a\n\nb"), 3);
    assert_eq!(count_lines("日本\n語"), 2);
}

#[test]
fn default_matches_new_without_path() {
    let d = Viewer::default();
    let n = Viewer::new(String::new());
    assert_eq!(d.file_path, "");
    assert_eq!(d.selected_model, n.selected_model);
    assert_eq!(d.available_models, n.available_models);
    assert_eq!(d.show_ai_panel, n.show_ai_panel);
    assert_eq!(d.current_question, "");
    assert!(!d.ai.is_processing);
    assert!(d.ai.chat_history.is_empty());
    assert!(d.highlighted.is_none());
    assert_eq!(d.error.as_ref().unwrap().message(), "No file path provided. Usage: tty_doc <file_path>");
}
