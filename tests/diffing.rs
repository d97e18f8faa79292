use mcedit::diff::{render_unified_diff, ChangeTag, DiffGenerator, LineChange};

fn count_hunks(d: &str) -> usize {
    d.lines().filter(|l| l.starts_with("@@")).count()
}

#[test]
fn identical_texts_have_no_hunks() {
    let t = "a\nb\nc\nd\ne\nf\n";
    let d = DiffGenerator::generate_unified_diff(t, t).unwrap();
    assert_eq!(d, "--- Original\n+++ Modified\n");
    assert_eq!(count_hunks(&d), 0);
}

#[test]
fn empty_against_two_lines_is_one_hunk_of_inserts() {
    let d = DiffGenerator::generate_unified_diff("", "a\nb\n").unwrap();
    assert_eq!(count_hunks(&d), 1);
    assert!(d.starts_with("--- Original\n+++ Modified\n@@ -1,0 +1,2 @@\n"));
    let inserts = d.lines().filter(|l| l.starts_with('+') && !l.starts_with("+++")).count();
    assert_eq!(inserts, 2);
}

fn ch(tag: ChangeTag, text: &str) -> LineChange {
    LineChange { tag, value: text.to_string(), text: text.to_string() }
}

#[test]
fn groups_of_four_and_headers() {
    let cs = vec![
        ch(ChangeTag::Equal, "a\n"),
        ch(ChangeTag::Equal, "b\n"),
        ch(ChangeTag::Equal, "c\n"),
        ch(ChangeTag::Equal, "d\n"),
        ch(ChangeTag::Equal, "e\n"),
        ch(ChangeTag::Delete, "f\n"),
        ch(ChangeTag::Insert, "F\n"),
        ch(ChangeTag::Equal, "g\n"),
        ch(ChangeTag::Insert, "h\n"),
    ];
    let d = render_unified_diff(&cs);
    assert_eq!(
        d,
        "--- Original\n+++ Modified\n@@ -5,3 +5,3 @@\n e\n\n-f\n\n+F\n\n g\n\n\n@@ -8,0 +8,1 @@\n+h\n\n"
    );
}

#[test]
fn html_rendering_escapes_and_marks() {
    let d = DiffGenerator::generate_html_diff("a<b\nsame\n", "a>b\nsame\n").unwrap();
    assert_eq!(
        d,
        "<pre class=\"diff\">\n<span class=\"deletion\">-a&lt;b</span>\n<span class=\"insertion\">+a&gt;b</span>\n same\n</pre>"
    );
}

#[test]
fn word_rendering_marks_changes() {
    let cs = vec![ch(ChangeTag::Equal, "x "), ch(ChangeTag::Delete, "y"), ch(ChangeTag::Insert, "z")];
    assert_eq!(mcedit::diff::render_word_diff(&cs), "x [-y-]{+z+}");
    let d = DiffGenerator::generate_word_diff("a b", "a c").unwrap();
    assert!(d.contains("[-") && d.contains("{+"));
}

#[test]
fn differing_texts_always_give_a_hunk() {
    let d = DiffGenerator::generate_unified_diff("a", "a\n").unwrap();
    assert_eq!(count_hunks(&d), 1);
    let d = DiffGenerator::generate_unified_diff("x\ny\nz\n", "x\nz\n").unwrap();
    assert_eq!(count_hunks(&d), 1);
    assert_eq!(d.lines().filter(|l| l.starts_with('-') && !l.starts_with("---")).count(), 1);
}
