use levenshtein_rust::distance;

#[test]
fn test_assert_emptiness() {
    assert_eq!(distance("", ""), 0);
    assert_eq!(distance("a", ""), 1);
    assert_eq!(distance("", "a"), 1);
}

#[test]
fn test_assert_edits() {
    assert_eq!(distance("abc", "azc"), 1);
    assert_eq!(distance("abc", "acb"), 2);
    assert_eq!(distance("abc", "ac"), 1);
    assert_eq!(distance("ac", "abc"), 1);
}

#[test]
fn test_utf8() {
    assert_eq!(distance("la", "là"), 1);
    assert_eq!(distance("🦀", "🦁"), 1);
}

#[test]
fn distance_counts_code_points_not_bytes() {
    // Two bytes against one, four bytes against four: one substitution each.
    assert_eq!("là".len(), 3);
    assert_eq!(distance("là", "la"), 1);
    assert_eq!("🦀".len(), 4);
    assert_eq!(distance("🦀", "a"), 1);
    assert_eq!(distance("日本語", ""), 3);
    assert_eq!(distance("", "日本語"), 3);
    assert_eq!(distance("日本語", "日本"), 1);
}

#[test]
fn distance_to_self_is_zero() {
    for text in ["", "a", "abc", "kitten", "là", "🦀🦁", "a\u{0}b"] {
        assert_eq!(distance(text, text), 0);
    }
}

#[test]
fn distance_is_zero_only_for_equal_texts() {
    assert_ne!(distance("abc", "abd"), 0);
    assert_ne!(distance("abc", "abcd"), 0);
    assert_ne!(distance("e\u{301}", "\u{e9}"), 0);
}

#[test]
fn distance_is_symmetric() {
    let texts = ["", "a", "ab", "abc", "acb", "kitten", "sitting", "là", "🦀"];
    for x in texts {
        for y in texts {
            assert_eq!(distance(x, y), distance(y, x));
        }
    }
}

#[test]
fn distance_obeys_the_triangle_inequality() {
    let texts = ["", "a", "ab", "abc", "acb", "kitten", "sitting", "là", "🦀"];
    for x in texts {
        for y in texts {
            for z in texts {
                assert!(distance(x, y) <= distance(x, z) + distance(z, y));
            }
        }
    }
}

#[test]
fn distance_with_an_empty_text_is_the_other_length() {
    for text in ["", "a", "abc", "là", "🦀🦁", "sitting"] {
        let count = text.chars().count();
        assert_eq!(distance(text, ""), count);
        assert_eq!(distance("", text), count);
    }
}

#[test]
fn distance_lies_between_the_length_bounds() {
    let texts = ["", "a", "ab", "abc", "kitten", "sitting", "là", "🦀"];
    for x in texts {
        for y in texts {
            let n = x.chars().count();
            let m = y.chars().count();
            let d = distance(x, y);
            assert!(d <= n.max(m));
            assert!(d >= n.max(m) - n.min(m));
        }
    }
}

#[test]
fn distance_of_known_pairs() {
    assert_eq!(distance("kitten", "sitting"), 3);
    assert_eq!(distance("sitting", "kitten"), 3);
    assert_eq!(distance("flaw", "lawn"), 2);
    assert_eq!(distance("saturday", "sunday"), 3);
    assert_eq!(distance("abc", "xyz"), 3);
    assert_eq!(distance("ab", "ba"), 2);
    assert_eq!(distance("a", "abcdef"), 5);
    assert_eq!(distance("abcdef", "f"), 5);
}

#[test]
fn distance_where_the_second_text_is_longer_or_shorter() {
    assert_eq!(distance("intention", "execution"), 5);
    assert_eq!(distance("a", "bbbbbbbb"), 8);
    assert_eq!(distance("bbbbbbbb", "a"), 8);
    assert_eq!(distance("abcabcabc", "abc"), 6);
    assert_eq!(distance("abc", "abcabcabc"), 6);
}

#[test]
fn distance_over_a_zero_code_point_runs_the_whole_length() {
    assert_eq!(distance("a\u{0}bc", "a\u{0}bd"), 1);
    assert_eq!(distance("a\u{0}bc", "a"), 3);
}
