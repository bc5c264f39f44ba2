use crypto_tool::path_name::{prepare_output_file_name, Direction};

fn output_name(input: &str) -> (String, Direction) {
    let (out, dir) = prepare_output_file_name(&input.as_bytes().to_vec());
    (String::from_utf8(out).unwrap(), dir)
}

#[test]
fn plain_extension_gets_marker_appended() {
    let (out, dir) = output_name("a.txt");
    assert_eq!(out, "a.txt.c20");
    assert_eq!(dir, Direction::Encrypt);
}

#[test]
fn marker_extension_is_stripped() {
    let (out, dir) = output_name("a.txt.c20");
    assert_eq!(out, "a.txt");
    assert_eq!(dir, Direction::Decrypt);
}

#[test]
fn no_extension_gets_marker_set() {
    let (out, dir) = output_name("noext");
    assert_eq!(out, "noext.c20");
    assert_eq!(dir, Direction::Encrypt);
}

#[test]
fn bare_marker_name_decrypts_to_stem() {
    let (out, dir) = output_name("x.c20");
    assert_eq!(out, "x");
    assert_eq!(dir, Direction::Decrypt);
}

#[test]
fn leading_dot_opens_no_extension() {
    let (out, dir) = output_name(".bashrc");
    assert_eq!(out, ".bashrc.c20");
    assert_eq!(dir, Direction::Encrypt);
}

#[test]
fn dot_in_directory_does_not_count() {
    let (out, dir) = output_name("di.r/noext");
    assert_eq!(out, "di.r/noext.c20");
    assert_eq!(dir, Direction::Encrypt);
}

#[test]
fn marker_under_directories_is_stripped() {
    let (out, dir) = output_name("dir/sub/report.pdf.c20");
    assert_eq!(out, "dir/sub/report.pdf");
    assert_eq!(dir, Direction::Decrypt);
}

#[test]
fn backslash_separators_work_too() {
    let (out, dir) = output_name("C:\\tmp\\x.c20");
    assert_eq!(out, "C:\\tmp\\x");
    assert_eq!(dir, Direction::Decrypt);
}

#[test]
fn marker_is_case_sensitive() {
    let (out, dir) = output_name("a.C20");
    assert_eq!(out, "a.C20.c20");
    assert_eq!(dir, Direction::Encrypt);
}

#[test]
fn marker_in_the_middle_does_not_select_decrypt() {
    let (out, dir) = output_name("a.c20.txt");
    assert_eq!(out, "a.c20.txt.c20");
    assert_eq!(dir, Direction::Encrypt);
}

#[test]
fn toggling_twice_returns_the_input() {
    for name in ["a.txt", "noext", ".bashrc", "dir/sub/report.pdf"] {
        let (enc, dir) = output_name(name);
        assert_eq!(dir, Direction::Encrypt);
        let (dec, dir2) = output_name(&enc);
        assert_eq!(dir2, Direction::Decrypt);
        assert_eq!(dec, name);
    }
}
