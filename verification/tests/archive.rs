use std::io::Read;

use pake_logs::archive::{build_archive, entry_text};
use pake_logs::lines::concat_lines;

fn strings(items: &[&str]) -> Vec<String> {
    items.iter().map(|s| s.to_string()).collect()
}

#[test]
fn concat_lines_terminates_each_line() {
    assert_eq!(concat_lines(&strings(&["a", "b"])), "a\nb\n");
    assert_eq!(concat_lines(&strings(&[])), "");
    assert_eq!(concat_lines(&strings(&[""])), "\n");
}

#[test]
fn archive_round_trip() {
    let archive = build_archive(&strings(&["a", "b"]), &strings(&["x"])).unwrap();

    let runtime = entry_text(&archive, "runtime.log").unwrap();
    assert_eq!(runtime, "a\nb\n");
    let runtime_lines: Vec<&str> = runtime.lines().collect();
    assert_eq!(runtime_lines, vec!["a", "b"]);

    let xhr = entry_text(&archive, "xhr.log").unwrap();
    assert_eq!(xhr, "x\n");
    let xhr_lines: Vec<&str> = xhr.lines().collect();
    assert_eq!(xhr_lines, vec!["x"]);
}

#[test]
fn archive_reads_back_with_an_independent_reader() {
    let archive = build_archive(&strings(&["boot ok", "ready"]), &strings(&["GET /x 200"]))
        .unwrap();
    let mut za = zip::ZipArchive::new(std::io::Cursor::new(archive)).unwrap();
    assert_eq!(za.len(), 2);

    let mut runtime = String::new();
    za.by_name("runtime.log").unwrap().read_to_string(&mut runtime).unwrap();
    assert_eq!(runtime, "boot ok\nready\n");

    let mut xhr = String::new();
    za.by_name("xhr.log").unwrap().read_to_string(&mut xhr).unwrap();
    assert_eq!(xhr, "GET /x 200\n");
}

#[test]
fn empty_input_gives_two_empty_entries() {
    let archive = build_archive(&strings(&[]), &strings(&[])).unwrap();
    assert_eq!(entry_text(&archive, "runtime.log").unwrap(), "");
    assert_eq!(entry_text(&archive, "xhr.log").unwrap(), "");
}

#[test]
fn absent_entry_reads_as_none() {
    let archive = build_archive(&strings(&["a"]), &strings(&[])).unwrap();
    assert!(entry_text(&archive, "nope.log").is_none());
}

#[test]
fn garbage_bytes_read_as_none() {
    let garbage: Vec<u8> = vec![0, 1, 2, 3, 4, 5, 6, 7];
    assert!(entry_text(&garbage, "runtime.log").is_none());
}

#[test]
fn archive_is_compressed_not_a_copy() {
    let lines = strings(&["the same line over and over"; 64]);
    let archive = build_archive(&lines, &strings(&[])).unwrap();
    let raw: usize = lines.iter().map(|l| l.len() + 1).sum();
    assert!(archive.len() < raw);
    assert_eq!(entry_text(&archive, "runtime.log").unwrap(), concat_lines(&lines));
}
