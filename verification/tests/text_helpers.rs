use ceph_monitor::text::{chars_of, replace_all_chars};

fn replace(s: &str, pat: &str, rep: &str) -> String {
    let out = replace_all_chars(&chars_of(s), &chars_of(pat), &chars_of(rep));
    out.iter().collect()
}

#[test]
fn chars_of_keeps_every_character() {
    assert_eq!(chars_of("a-é::☃"), vec!['a', '-', 'é', ':', ':', '☃']);
    assert_eq!(chars_of(""), Vec::<char>::new());
}

#[test]
fn replace_matches_str_replace() {
    for (s, pat, rep) in [
        ("a-b-c", "-", "_"),
        (":::", "::", "_"),
        ("::::", "::", "_"),
        ("abc", "abcd", "x"),
        ("aaaa", "aa", "b"),
        ("x\ny\n", "\n", ""),
        ("", "::", "_"),
    ] {
        assert_eq!(replace(s, pat, rep), s.replace(pat, rep), "input {:?}", s);
    }
}
