use freshener::text::{chars_of, contains, ends_with, same, split};

#[test]
fn a_text_holds_its_parts() {
    assert!(contains("docker.io/envoy:v1", "envoy"));
    assert!(contains("envoy", "envoy"));
    assert!(contains("envoy", "e"));
    assert!(contains("envoy", "y"));
    assert!(contains("envoy", ""));
    assert!(contains("", ""));
}

#[test]
fn a_text_does_not_hold_what_is_not_in_it() {
    assert!(!contains("envoy", "envoys"));
    assert!(!contains("envoy", "Envoy"));
    assert!(!contains("", "e"));
    assert!(!contains("ab", "ba"));
    assert!(!contains("aab", "abb"));
    assert!(contains("aaab", "aab"));
}

#[test]
fn holding_agrees_with_the_standard_library() {
    let texts = ["", "a", "ab", "aba", "abab", "sidecar", "my-sidecar-1", "ünï", "nï"];
    for hay in texts {
        for needle in texts {
            assert_eq!(contains(hay, needle), hay.contains(needle), "{:?} in {:?}", needle, hay);
            assert_eq!(ends_with(hay, needle), hay.ends_with(needle), "{:?} ends {:?}", needle, hay);
        }
    }
}

#[test]
fn texts_are_the_same_character_for_character() {
    assert!(same("Pod", "Pod"));
    assert!(!same("Pod", "pod"));
    assert!(!same("Pod", "Pods"));
    assert!(same("", ""));
}

#[test]
fn the_characters_of_a_text() {
    assert_eq!(chars_of("aé-"), vec!['a', 'é', '-']);
    assert!(chars_of("").is_empty());
}

#[test]
fn a_text_ends_with_its_ending() {
    assert!(ends_with("pod.yaml", ".yaml"));
    assert!(ends_with("pod.yaml", ""));
    assert!(!ends_with("pod.yaml", ".yam"));
    assert!(!ends_with("yaml", ".yaml"));
}

#[test]
fn a_text_is_cut_at_each_separator() {
    assert_eq!(split("a,b,,c", ","), vec!["a", "b", "", "c"]);
    assert_eq!(split("abc", ","), vec!["abc"]);
    assert_eq!(split(",", ","), vec!["", ""]);
    assert_eq!(split("a::b:c", "::"), vec!["a", "b:c"]);
    assert_eq!(split("aaa", "aa"), vec!["", "a"]);
}
