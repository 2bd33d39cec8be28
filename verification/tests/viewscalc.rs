use ferris_commerce::viewscalc::{channel_ranking, line_views, top_channels, total_views_by_channel, views_with_separators};

fn line(channel: &str, views: &str) -> String {
    format!("id,date,title,\"{}\",{},cat,time,tags,{},likes", "x", channel, views)
}

#[test]
fn line_views_reads_channel_and_views() {
    let (channel, views) = line_views("a,b,c,d,Channel One,f,g,h,1500,j");
    assert_eq!(channel, "Channel One");
    assert_eq!(views, 1500);
}

#[test]
fn line_views_drops_quotes_and_fills_empty_fields() {
    let (channel, views) = line_views("a,\"b\",,d,\"Chan\",f,g,h,42");
    assert_eq!(channel, "Chan");
    assert_eq!(views, 42);
    let (channel, views) = line_views("a,,,d,e,f,g,h,9");
    assert_eq!(channel, "e");
    assert_eq!(views, 9);
    let (channel, views) = line_views("a,b,c,d,,f,g,h,,j");
    assert_eq!(channel, "0");
    assert_eq!(views, 0);
    let (channel, views) = line_views("a,b,c,d,Chan,f,g,h,\"77\"");
    assert_eq!(channel, "Chan");
    assert_eq!(views, 77);
}

#[test]
fn line_views_missing_fields_give_defaults() {
    let (channel, views) = line_views("only,three,fields");
    assert_eq!(channel, "");
    assert_eq!(views, 0);
    let (channel, views) = line_views("a,b,c,d,Chan,f,g,h,not_a_number");
    assert_eq!(channel, "Chan");
    assert_eq!(views, 0);
}

#[test]
fn totals_sum_views_per_channel_in_first_appearance_order() {
    let entries = vec![
        ("b".to_string(), 5u64),
        ("a".to_string(), 7u64),
        ("b".to_string(), 10u64),
    ];
    let totals = total_views_by_channel(&entries).unwrap();
    assert_eq!(totals, vec![("b".to_string(), 15), ("a".to_string(), 7)]);
}

#[test]
fn totals_refuse_overflow() {
    let entries = vec![("a".to_string(), u64::MAX), ("a".to_string(), 1u64)];
    assert!(total_views_by_channel(&entries).is_none());
}

#[test]
fn top_channels_keeps_the_largest_most_first() {
    let totals = vec![
        ("a".to_string(), 3u64),
        ("b".to_string(), 9u64),
        ("c".to_string(), 1u64),
        ("d".to_string(), 9u64),
    ];
    let top = top_channels(&totals, 3);
    assert_eq!(top, vec![("b".to_string(), 9), ("d".to_string(), 9), ("a".to_string(), 3)]);
    assert_eq!(top_channels(&totals, 10).len(), 4);
    assert!(top_channels(&totals, 0).is_empty());
}

#[test]
fn views_are_separated_by_thousands() {
    assert_eq!(views_with_separators(0), "0");
    assert_eq!(views_with_separators(999), "999");
    assert_eq!(views_with_separators(1000), "1,000");
    assert_eq!(views_with_separators(1234567), "1,234,567");
    assert_eq!(views_with_separators(u64::MAX), "18,446,744,073,709,551,615");
}

#[test]
fn separators_keep_the_digits() {
    let shown = views_with_separators(9876543210);
    assert_eq!(shown.replace(",", ""), "9876543210");
}

#[test]
fn ranking_skips_headers_and_sums_over_files() {
    let file1 = vec!["header".to_string(), line("Alpha", "100"), line("Beta", "2500")];
    let file2 = vec!["header".to_string(), line("Alpha", "3000")];
    let ranking = channel_ranking(&vec![file1, file2]).unwrap();
    assert_eq!(
        ranking,
        vec![("Alpha".to_string(), "3,100".to_string()), ("Beta".to_string(), "2,500".to_string())]
    );
}

#[test]
fn ranking_shows_at_most_ten_channels() {
    let mut file = vec!["header".to_string()];
    for i in 0..15 {
        file.push(line(&format!("C{}", i), &format!("{}", i)));
    }
    let ranking = channel_ranking(&vec![file]).unwrap();
    assert_eq!(ranking.len(), 10);
    assert_eq!(ranking[0], ("C14".to_string(), "14".to_string()));
    assert_eq!(ranking[9], ("C5".to_string(), "5".to_string()));
}
