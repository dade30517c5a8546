use prompt_mixer::think::strip_think_tags;

fn run(text: &str, inside: bool) -> (String, bool) {
    let mut state = inside;
    let shown = strip_think_tags(text, &mut state);
    (shown, state)
}

#[test]
fn block_at_start_is_hidden() {
    assert_eq!(run("<think>secret</think>hello", false), ("hello".to_string(), false));
}

#[test]
fn space_after_block_is_trimmed() {
    assert_eq!(run("<think>secret</think> hello", false), ("hello".to_string(), false));
    assert_eq!(run("<think>secret</think>\n\n  hello", false), ("hello".to_string(), false));
}

#[test]
fn block_split_over_two_chunks() {
    let mut state = false;
    let first = strip_think_tags("a<think>x", &mut state);
    assert_eq!(first, "a");
    assert!(state);
    let second = strip_think_tags("y</think>b", &mut state);
    assert_eq!(second, "b");
    assert!(!state);
    assert!(!first.contains('x') && !second.contains('y'));
}

#[test]
fn plain_text_passes_with_its_white_space() {
    let text = "  two  spaces,\ta tab\nand a line  ";
    assert_eq!(run(text, false), (text.to_string(), false));
}

#[test]
fn several_blocks_in_one_chunk() {
    assert_eq!(run("a<think>b</think>c<think>d</think>e", false), ("ace".to_string(), false));
    assert_eq!(run("x</think>a<think>y</think>b<think>z", true), ("ab".to_string(), true));
}

#[test]
fn unclosed_block_hides_the_rest() {
    assert_eq!(run("still thinking", true), (String::new(), true));
    assert_eq!(run("a<think>b", false), ("a".to_string(), true));
}

#[test]
fn empty_chunk_changes_nothing() {
    assert_eq!(run("", false), (String::new(), false));
    assert_eq!(run("", true), (String::new(), true));
}

#[test]
fn split_marker_is_not_recognised() {
    let mut state = false;
    assert_eq!(strip_think_tags("a<thi", &mut state), "a<thi");
    assert!(!state);
    assert_eq!(strip_think_tags("nk>b", &mut state), "nk>b");
    assert!(!state);
}

#[test]
fn only_leading_white_space_is_trimmed_at_the_seam() {
    assert_eq!(run("x</think>  a  b ", true), ("a  b ".to_string(), false));
    assert_eq!(run("x</think>\u{3000}\u{a0}\tb", true), ("b".to_string(), false));
}

#[test]
fn white_space_between_two_blocks_vanishes() {
    assert_eq!(run("x</think>  <think>y</think> b", true), ("b".to_string(), false));
}

#[test]
fn text_before_the_first_block_is_not_trimmed() {
    assert_eq!(run(" a <think>x</think> b", false), (" a b".to_string(), false));
}

#[test]
fn close_marker_outside_a_block_is_text() {
    assert_eq!(run("a</think>b", false), ("a</think>b".to_string(), false));
}

#[test]
fn open_marker_inside_a_block_is_hidden() {
    assert_eq!(run("a<think>b</think>c", true), ("c".to_string(), false));
}

#[test]
fn non_ascii_text_is_kept() {
    assert_eq!(run("héllo <think>ça</think>wörld", false), ("héllo wörld".to_string(), false));
}
