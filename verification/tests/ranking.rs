use picker::ranking::{list_all, rank, rank_rescored, rank_scored, PickerMatch};
use std::cmp::Ordering;

fn entry(index: usize, score: i64, len: usize) -> PickerMatch {
    PickerMatch { index, score, len }
}

#[test]
fn higher_score_comes_first() {
    assert_eq!(entry(0, 5, 9).cmp(&entry(1, 3, 1)), Ordering::Less);
    assert_eq!(entry(0, -5, 9).cmp(&entry(1, 3, 1)), Ordering::Greater);
    assert_eq!(
        entry(0, 5, 9).partial_cmp(&entry(1, 3, 1)),
        Some(Ordering::Less)
    );
}

#[test]
fn shorter_text_breaks_a_tie() {
    assert_eq!(entry(0, 5, 2).cmp(&entry(1, 5, 3)), Ordering::Less);
    assert_eq!(entry(0, 5, 4).cmp(&entry(1, 5, 3)), Ordering::Greater);
    assert!(entry(0, 5, 2) < entry(1, 5, 3));
}

#[test]
fn position_plays_no_part() {
    assert_eq!(entry(0, 5, 3).cmp(&entry(7, 5, 3)), Ordering::Equal);
    assert_ne!(entry(0, 5, 3), entry(7, 5, 3));
}

#[test]
fn unfiltered_list_keeps_the_order() {
    assert_eq!(
        list_all(&vec![9, 2, 5]),
        vec![entry(0, 0, 9), entry(1, 0, 2), entry(2, 0, 5)]
    );
    assert_eq!(list_all(&vec![]), vec![]);
}

#[test]
fn scored_options_are_ranked() {
    let ranked = rank_scored(
        &vec![4, 4, 2, 8, 1],
        &vec![Some(10), None, Some(30), Some(10), Some(30)],
    );
    assert_eq!(
        ranked,
        vec![
            entry(4, 30, 1),
            entry(2, 30, 2),
            entry(0, 10, 4),
            entry(3, 10, 8)
        ]
    );
}

#[test]
fn no_score_no_match() {
    assert_eq!(rank_scored(&vec![1, 2], &vec![None, None]), vec![]);
}

#[test]
fn rescoring_keeps_lengths() {
    let kept = rank_rescored(
        &vec![entry(3, 50, 7), entry(0, 40, 2), entry(1, 30, 1)],
        &vec![Some(5), None, Some(6)],
    );
    assert_eq!(kept, vec![entry(1, 6, 1), entry(3, 5, 7)]);
}

#[test]
fn rescoring_listed_options_is_rescoring_all() {
    let lens = vec![3, 1, 4, 1, 5];
    let before = rank_scored(&lens, &vec![Some(1), None, Some(2), Some(3), Some(4)]);
    let scores = vec![None, None, Some(9), Some(8), Some(7)];
    let listed: Vec<Option<i64>> = before.iter().map(|m| scores[m.index]).collect();
    assert_eq!(rank_rescored(&before, &listed), rank_scored(&lens, &scores));
}

#[test]
fn long_lists_are_sorted() {
    let mut matches = Vec::new();
    for i in 0..1000usize {
        matches.push(entry(i, ((i * 7919) % 1009) as i64, (i * 31) % 17));
    }
    let sorted = rank(matches.clone());
    assert_eq!(sorted.len(), 1000);
    for pair in sorted.windows(2) {
        assert!(pair[0].cmp(&pair[1]) != Ordering::Greater);
    }
    let mut by_index = sorted.clone();
    by_index.sort_by_key(|m| m.index);
    assert_eq!(by_index, matches);
}
