use yt_monitor::creator::YTCreator;
use yt_monitor::permutation::rearrange_with_indices;
use yt_monitor::sorting::AllowedFieldNamesForSorting;

fn strings(items: &[&str]) -> Vec<String> {
    items.iter().map(|item| item.to_string()).collect()
}

fn record(names: &[&str], live: &[&str], subscribers: &[&str]) -> YTCreator {
    YTCreator {
        names: strings(names),
        avatar_links: names.iter().map(|name| format!("link:{}", name)).collect(),
        descriptions: names.iter().map(|name| format!("about {}", name)).collect(),
        is_live_status: strings(live),
        subscribers: strings(subscribers),
    }
}

#[test]
fn default_option_is_subscribers() {
    assert_eq!(
        AllowedFieldNamesForSorting::default(),
        AllowedFieldNamesForSorting::Subscribers
    );
}

#[test]
fn sort_by_subscribers_is_rising() {
    let obj = record(
        &["a", "b", "c", "d"],
        &["true", "true", "false", "false"],
        &["200", "400", "100", "300"],
    );
    let (sorted, order) = obj.sort_by(AllowedFieldNamesForSorting::Subscribers).unwrap();
    assert_eq!(order, vec![2, 0, 3, 1]);
    assert_eq!(sorted.subscribers, ["100", "200", "300", "400"]);
    assert_eq!(sorted.names, ["c", "a", "d", "b"]);
    assert_eq!(sorted.avatar_links, ["link:c", "link:a", "link:d", "link:b"]);
    assert_eq!(sorted.descriptions, ["about c", "about a", "about d", "about b"]);
    assert_eq!(sorted.is_live_status, ["false", "true", "false", "true"]);
}

#[test]
fn sort_by_subscribers_compares_numbers_not_texts() {
    let obj = record(&["a", "b", "c", "d"], &["true"; 4], &["9", "10", "-3", "+7"]);
    let (sorted, order) = obj.sort_by(AllowedFieldNamesForSorting::Subscribers).unwrap();
    assert_eq!(order, vec![2, 3, 0, 1]);
    assert_eq!(sorted.subscribers, ["-3", "+7", "9", "10"]);
}

#[test]
fn sort_by_subscribers_keeps_equal_counts_in_place() {
    let obj = record(&["a", "b", "c", "d", "e"], &["true"; 5], &["5", "1", "5", "1", "05"]);
    let (sorted, order) = obj.sort_by(AllowedFieldNamesForSorting::Subscribers).unwrap();
    assert_eq!(order, vec![1, 3, 0, 2, 4]);
    assert_eq!(sorted.names, ["b", "d", "a", "c", "e"]);
}

#[test]
fn sort_by_live_status_puts_offline_first_and_more_subscribers_first() {
    let obj = record(
        &["a", "b", "c", "d"],
        &["true", "true", "false", "false"],
        &["200", "400", "100", "300"],
    );
    let (sorted, order) = obj.sort_by(AllowedFieldNamesForSorting::IsLiveStatus).unwrap();
    assert_eq!(order, vec![3, 2, 1, 0]);
    assert_eq!(sorted.is_live_status, ["false", "false", "true", "true"]);
    assert_eq!(sorted.subscribers, ["300", "100", "400", "200"]);
}

#[test]
fn sort_by_live_status_keeps_full_ties_in_place() {
    let obj = record(
        &["a", "b", "c", "d", "e"],
        &["true", "false", "true", "false", "true"],
        &["1", "2", "1", "2", "3"],
    );
    let (sorted, order) = obj.sort_by(AllowedFieldNamesForSorting::IsLiveStatus).unwrap();
    assert_eq!(order, vec![1, 3, 4, 0, 2]);
    assert_eq!(sorted.names, ["b", "d", "e", "a", "c"]);
}

#[test]
fn sort_of_an_empty_record() {
    let obj = YTCreator::default();
    let (sorted, order) = obj.sort_by(AllowedFieldNamesForSorting::Subscribers).unwrap();
    assert!(order.is_empty());
    assert_eq!(sorted, YTCreator::default());
    let (sorted, order) = obj.sort_by(AllowedFieldNamesForSorting::IsLiveStatus).unwrap();
    assert!(order.is_empty());
    assert_eq!(sorted, YTCreator::default());
}

#[test]
fn sort_of_one_creator() {
    let obj = record(&["a"], &["false"], &["12"]);
    let (sorted, order) = obj.sort_by(AllowedFieldNamesForSorting::IsLiveStatus).unwrap();
    assert_eq!(order, vec![0]);
    assert_eq!(sorted, obj);
}

#[test]
fn sort_leaves_the_record_itself_alone() {
    let obj = record(&["a", "b"], &["true", "false"], &["2", "1"]);
    let copy = obj.clone();
    let _ = obj.sort_by(AllowedFieldNamesForSorting::Subscribers);
    assert_eq!(obj, copy);
}

#[test]
fn sort_again_changes_nothing() {
    let obj = record(
        &["a", "b", "c", "d", "e"],
        &["true", "false", "true", "false", "true"],
        &["3", "2", "3", "9", "1"],
    );
    for option in [
        AllowedFieldNamesForSorting::Subscribers,
        AllowedFieldNamesForSorting::IsLiveStatus,
    ] {
        let (once, _) = obj.sort_by(option).unwrap();
        let (twice, order) = once.sort_by(option).unwrap();
        assert_eq!(order, vec![0, 1, 2, 3, 4]);
        assert_eq!(twice, once);
    }
}

#[test]
fn sort_refuses_a_count_that_is_no_number() {
    let obj = record(&["a", "b"], &["true", "false"], &["12", "many"]);
    assert!(obj.sort_by(AllowedFieldNamesForSorting::Subscribers).is_none());
    assert!(obj.sort_by(AllowedFieldNamesForSorting::IsLiveStatus).is_none());
    assert!(!obj.can_sort_by(AllowedFieldNamesForSorting::Subscribers));
    assert!(!obj.can_sort_by(AllowedFieldNamesForSorting::IsLiveStatus));
}

#[test]
fn sort_by_live_status_refuses_a_status_that_is_no_flag() {
    let obj = record(&["a", "b"], &["true", " false"], &["12", "13"]);
    assert!(obj.sort_by(AllowedFieldNamesForSorting::IsLiveStatus).is_none());
    assert!(!obj.can_sort_by(AllowedFieldNamesForSorting::IsLiveStatus));
    assert!(obj.can_sort_by(AllowedFieldNamesForSorting::Subscribers));
    let (sorted, _) = obj.sort_by(AllowedFieldNamesForSorting::Subscribers).unwrap();
    assert_eq!(sorted.is_live_status, ["true", " false"]);
}

#[test]
fn sort_refuses_columns_of_unequal_length() {
    let mut obj = record(&["a", "b"], &["true", "false"], &["1", "2"]);
    obj.names.push("c".to_string());
    assert!(obj.sort_by(AllowedFieldNamesForSorting::Subscribers).is_none());
    assert!(!obj.can_sort_by(AllowedFieldNamesForSorting::Subscribers));
    let mut obj = record(&["a", "b"], &["true", "false"], &["1", "2"]);
    obj.subscribers.pop();
    assert!(obj.sort_by(AllowedFieldNamesForSorting::IsLiveStatus).is_none());
}

#[test]
fn helper_sort_orders_by_the_column_handed_in() {
    let obj = record(&["a", "b", "c"], &["true", "false", "true"], &["1", "2", "3"]);
    let ranks = strings(&["30", "10", "20"]);
    let (sorted, order) = obj.helper_sort(&ranks, false).unwrap();
    assert_eq!(order, vec![1, 2, 0]);
    assert_eq!(sorted.names, ["b", "c", "a"]);
    let flags = strings(&["false", "true", "false"]);
    let (sorted, order) = obj.helper_sort(&flags, true).unwrap();
    assert_eq!(order, vec![2, 0, 1]);
    assert_eq!(sorted.names, ["c", "a", "b"]);
}

#[test]
fn helper_sort_refuses_a_column_of_another_length() {
    let obj = record(&["a", "b", "c"], &["true", "false", "true"], &["1", "2", "3"]);
    assert!(obj.helper_sort(&strings(&["1", "2"]), false).is_none());
    assert!(obj.helper_sort(&strings(&["1", "2", "3", "4"]), false).is_none());
    assert!(obj.helper_sort(&strings(&["1", "2", "true"]), false).is_none());
    assert!(obj.helper_sort(&strings(&["1", "true", "false"]), true).is_none());
}

#[test]
fn side_arrays_follow_the_order() {
    let obj = record(
        &["a", "b", "c", "d"],
        &["true", "true", "false", "false"],
        &["200", "400", "100", "300"],
    );
    let mut flags = vec![true, true, false, false];
    let mut photos = vec!["pa", "pb", "pc", "pd"];
    let (sorted, order) = obj.sort_by(AllowedFieldNamesForSorting::Subscribers).unwrap();
    rearrange_with_indices(&mut flags, order.clone());
    rearrange_with_indices(&mut photos, order);
    assert_eq!(sorted.names, ["c", "a", "d", "b"]);
    assert_eq!(photos, ["pc", "pa", "pd", "pb"]);
    assert_eq!(flags, [false, true, false, true]);
}

#[test]
fn sort_agrees_with_a_stable_sort_of_std() {
    let mut seed: u64 = 0x2545_f491_4f6c_dd1d;
    let mut next = move || {
        seed ^= seed << 13;
        seed ^= seed >> 7;
        seed ^= seed << 17;
        seed
    };
    for round in 0..200 {
        let n = (round % 13) as usize;
        let counts: Vec<i32> = (0..n).map(|_| (next() % 7) as i32 - 3).collect();
        let live: Vec<bool> = (0..n).map(|_| next() % 2 == 0).collect();
        let names: Vec<String> = (0..n).map(|i| format!("n{}", i)).collect();
        let obj = YTCreator {
            names: names.clone(),
            avatar_links: names.iter().map(|name| format!("link:{}", name)).collect(),
            descriptions: names.iter().map(|name| format!("about {}", name)).collect(),
            is_live_status: live.iter().map(|flag| flag.to_string()).collect(),
            subscribers: counts.iter().map(|count| count.to_string()).collect(),
        };

        let mut expected: Vec<usize> = (0..n).collect();
        expected.sort_by_key(|&i| counts[i]);
        let (sorted, order) = obj.sort_by(AllowedFieldNamesForSorting::Subscribers).unwrap();
        assert_eq!(order, expected);
        assert_eq!(
            sorted.names,
            expected.iter().map(|&i| names[i].clone()).collect::<Vec<String>>()
        );

        let mut expected: Vec<usize> = (0..n).collect();
        expected.sort_by_key(|&i| (live[i], -counts[i]));
        let (sorted, order) = obj.sort_by(AllowedFieldNamesForSorting::IsLiveStatus).unwrap();
        assert_eq!(order, expected);
        assert_eq!(
            sorted.subscribers,
            expected.iter().map(|&i| counts[i].to_string()).collect::<Vec<String>>()
        );
    }
}
