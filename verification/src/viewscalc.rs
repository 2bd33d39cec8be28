use vstd::prelude::*;

use crate::text::{chars_of, decimal, decimal_text, parse_unsigned, push_char, text_of, unsigned_value};

verus! {

/// `s` without its double quotes.
pub open spec fn without_quotes(s: Seq<char>) -> Seq<char>
    decreases s.len(),
{
    if s.len() == 0 {
        s
    } else {
        without_quotes(s.drop_last()) + if s.last() == '"' {
            Seq::<char>::empty()
        } else {
            seq![s.last()]
        }
    }
}

/// `s` with each `,,` written `,0,`, read from left to right: in `,,,` only
/// the first two commas get a `0` between them.
pub open spec fn fill_empty_fields(s: Seq<char>) -> Seq<char>
    decreases s.len(),
{
    if s.len() == 0 {
        s
    } else if s.len() >= 2 && s[0] == ',' && s[1] == ',' {
        seq![',', '0', ','] + fill_empty_fields(s.skip(2))
    } else {
        seq![s[0]] + fill_empty_fields(s.skip(1))
    }
}

/// The fields of `s` between its commas: one more than its commas.
pub open spec fn fields(s: Seq<char>) -> Seq<Seq<char>>
    decreases s.len(),
{
    if s.len() == 0 {
        seq![Seq::<char>::empty()]
    } else {
        let before = fields(s.drop_last());
        if s.last() == ',' {
            before.push(Seq::<char>::empty())
        } else {
            before.update(before.len() - 1, before.last().push(s.last()))
        }
    }
}

/// The channel and the views that a line of a dataset gives: with its
/// quotes removed and its empty fields filled with `0`, the fifth field is
/// the channel and the ninth the views; a missing channel is empty, and
/// missing or unreadable views are zero.
pub open spec fn line_entry(line: Seq<char>) -> (Seq<char>, u64) {
    let parts = fields(fill_empty_fields(without_quotes(line)));
    let channel = if parts.len() > 4 {
        parts[4]
    } else {
        Seq::<char>::empty()
    };
    let views = if parts.len() > 8 {
        match unsigned_value(parts[8], u64::MAX as nat) {
            Some(n) => n as u64,
            None => 0,
        }
    } else {
        0
    };
    (channel, views)
}

proof fn lemma_fields_not_empty(s: Seq<char>)
    ensures
        fields(s).len() >= 1,
    decreases s.len(),
{
    if s.len() > 0 {
        lemma_fields_not_empty(s.drop_last());
    }
}

/// `chars` without its double quotes.
fn remove_quotes(chars: &Vec<char>) -> (kept: Vec<char>)
    ensures
        kept@ == without_quotes(chars@),
{
    let mut kept: Vec<char> = Vec::new();
    let mut i: usize = 0;
    while i < chars.len()
        invariant
            i <= chars.len(),
            kept@ == without_quotes(chars@.take(i as int)),
        decreases chars.len() - i,
    {
        let ghost before = kept@;
        proof {
            let t = chars@.take(i + 1);
            assert(t.drop_last() =~= chars@.take(i as int));
            assert(t.last() == chars@[i as int]);
        }
        if chars[i] != '"' {
            kept.push(chars[i]);
        }
        proof {
            assert(kept@ =~= without_quotes(chars@.take(i + 1)));
        }
        i = i + 1;
    }
    assert(chars@.take(chars.len() as int) =~= chars@);
    kept
}

/// `chars` with each `,,` written `,0,`, as `fill_empty_fields` says.
fn fill_empty(chars: &Vec<char>) -> (filled: Vec<char>)
    ensures
        filled@ == fill_empty_fields(chars@),
{
    let mut filled: Vec<char> = Vec::new();
    let mut i: usize = 0;
    proof {
        assert(chars@.skip(0) =~= chars@);
        assert(filled@ + fill_empty_fields(chars@) =~= fill_empty_fields(chars@));
    }
    while i < chars.len()
        invariant
            i <= chars.len(),
            filled@ + fill_empty_fields(chars@.skip(i as int)) == fill_empty_fields(chars@),
        decreases chars.len() - i,
    {
        let ghost rest = chars@.skip(i as int);
        if i + 1 < chars.len() && chars[i] == ',' && chars[i + 1] == ',' {
            proof {
                assert(rest[0] == ',' && rest[1] == ',');
                assert(rest.skip(2) =~= chars@.skip(i + 2));
                assert(fill_empty_fields(rest) == seq![',', '0', ','] + fill_empty_fields(chars@.skip(i + 2)));
            }
            let ghost before = filled@;
            filled.push(',');
            filled.push('0');
            filled.push(',');
            proof {
                assert(filled@ =~= before + seq![',', '0', ',']);
                assert(filled@ + fill_empty_fields(chars@.skip(i + 2)) =~= before + fill_empty_fields(rest));
            }
            i = i + 2;
        } else {
            proof {
                assert(rest[0] == chars@[i as int]);
                assert(rest.skip(1) =~= chars@.skip(i + 1));
                assert(fill_empty_fields(rest) == seq![chars@[i as int]] + fill_empty_fields(chars@.skip(i + 1)));
            }
            let ghost before = filled@;
            filled.push(chars[i]);
            proof {
                assert(filled@ =~= before + seq![chars@[i as int]]);
                assert(filled@ + fill_empty_fields(chars@.skip(i + 1)) =~= before + fill_empty_fields(rest));
            }
            i = i + 1;
        }
    }
    proof {
        assert(chars@.skip(i as int) =~= Seq::<char>::empty());
        assert(filled@ + Seq::<char>::empty() =~= filled@);
    }
    filled
}

/// The field of `chars` at position `index`, if it has that many fields.
fn field_at(chars: &Vec<char>, index: usize) -> (field: Option<String>)
    ensures
        match field {
            Some(f) => index < fields(chars@).len() && f@ == fields(chars@)[index as int],
            None => index >= fields(chars@).len(),
        },
{
    let mut commas: usize = 0;
    let mut collected = String::new();
    let mut i: usize = 0;
    while i < chars.len()
        invariant
            i <= chars.len(),
            commas <= i,
            fields(chars@.take(i as int)).len() == commas + 1,
            commas < index ==> collected@ == Seq::<char>::empty(),
            commas >= index ==> collected@ == fields(chars@.take(i as int))[index as int],
        decreases chars.len() - i,
    {
        let ghost t = chars@.take(i + 1);
        proof {
            assert(t.drop_last() =~= chars@.take(i as int));
            assert(t.last() == chars@[i as int]);
            lemma_fields_not_empty(chars@.take(i as int));
        }
        if chars[i] == ',' {
            commas = commas + 1;
        } else if commas == index {
            push_char(&mut collected, chars[i]);
        }
        i = i + 1;
    }
    assert(chars@.take(chars.len() as int) =~= chars@);
    if commas >= index {
        Some(collected)
    } else {
        None
    }
}

/// The channel and the views that a line of a dataset gives, as
/// `line_entry` says.
pub fn line_views(line: &str) -> (entry: (String, u64))
    ensures
        (entry.0@, entry.1) == line_entry(line@),
{
    let chars = chars_of(line);
    let kept = remove_quotes(&chars);
    let filled = fill_empty(&kept);
    let channel = match field_at(&filled, 4) {
        Some(field) => field,
        None => String::new(),
    };
    let views: u64 = match field_at(&filled, 8) {
        Some(field) => match parse_unsigned(field.as_str(), u64::MAX) {
            Some(n) => n,
            None => 0,
        },
        None => 0,
    };
    (channel, views)
}

/// The channel and views of each entry, as mathematical values.
pub open spec fn entry_views(entries: Seq<(String, u64)>) -> Seq<(Seq<char>, u64)> {
    entries.map_values(|e: (String, u64)| (e.0@, e.1))
}

/// The views that `entries` give `channel`, summed.
pub open spec fn views_of(entries: Seq<(Seq<char>, u64)>, channel: Seq<char>) -> nat
    decreases entries.len(),
{
    if entries.len() == 0 {
        0
    } else {
        views_of(entries.drop_last(), channel) + if entries.last().0 == channel {
            entries.last().1 as nat
        } else {
            0nat
        }
    }
}

/// The channels of `entries`, each once, in the order they first appear.
pub open spec fn channels_in_order(entries: Seq<(Seq<char>, u64)>) -> Seq<Seq<char>>
    decreases entries.len(),
{
    if entries.len() == 0 {
        Seq::empty()
    } else {
        let before = channels_in_order(entries.drop_last());
        if before.contains(entries.last().0) {
            before
        } else {
            before.push(entries.last().0)
        }
    }
}

/// Each channel of `entries`, in the order they first appear, with its
/// total views.
pub open spec fn channel_totals(entries: Seq<(Seq<char>, u64)>) -> Seq<(Seq<char>, nat)> {
    channels_in_order(entries).map_values(|c: Seq<char>| (c, views_of(entries, c)))
}

/// The totals of a list of channels and views, as mathematical values.
pub open spec fn totals_view(totals: Seq<(String, u64)>) -> Seq<(Seq<char>, nat)> {
    totals.map_values(|t: (String, u64)| (t.0@, t.1 as nat))
}

proof fn lemma_absent_channel_has_no_views(entries: Seq<(Seq<char>, u64)>, channel: Seq<char>)
    requires
        !channels_in_order(entries).contains(channel),
    ensures
        views_of(entries, channel) == 0,
    decreases entries.len(),
{
    if entries.len() > 0 {
        let before = channels_in_order(entries.drop_last());
        if before.contains(channel) {
            let j = choose|j: int| 0 <= j < before.len() && before[j] == channel;
            assert(channels_in_order(entries)[j] == channel);
        }
        if entries.last().0 == channel {
            assert(channels_in_order(entries).last() == channel);
        }
        lemma_absent_channel_has_no_views(entries.drop_last(), channel);
    }
}

proof fn lemma_channels_distinct(entries: Seq<(Seq<char>, u64)>)
    ensures
        channels_in_order(entries).no_duplicates(),
    decreases entries.len(),
{
    if entries.len() > 0 {
        lemma_channels_distinct(entries.drop_last());
    }
}

proof fn lemma_views_grow(entries: Seq<(Seq<char>, u64)>, k: int, channel: Seq<char>)
    requires
        0 <= k <= entries.len(),
    ensures
        views_of(entries.take(k), channel) <= views_of(entries, channel),
    decreases entries.len() - k,
{
    if k < entries.len() {
        lemma_views_grow(entries, k + 1, channel);
        assert(entries.take(k + 1).drop_last() =~= entries.take(k));
    } else {
        assert(entries.take(k) =~= entries);
    }
}

/// The total views of each channel of `entries`, in the order the channels
/// first appear; nothing when some total does not fit in `u64`.
pub fn total_views_by_channel(entries: &Vec<(String, u64)>) -> (totals: Option<Vec<(String, u64)>>)
    ensures
        match totals {
            Some(t) => totals_view(t@) == channel_totals(entry_views(entries@)),
            None => exists|channel: Seq<char>| views_of(entry_views(entries@), channel) > u64::MAX,
        },
{
    let ghost all = entry_views(entries@);
    let mut totals: Vec<(String, u64)> = Vec::new();
    let mut i: usize = 0;
    proof {
        assert(all.take(0) =~= Seq::<(Seq<char>, u64)>::empty());
        assert(totals_view(totals@) =~= channel_totals(all.take(0)));
    }
    while i < entries.len()
        invariant
            i <= entries.len(),
            all == entry_views(entries@),
            totals_view(totals@) == channel_totals(all.take(i as int)),
        decreases entries.len() - i,
    {
        let ghost before = all.take(i as int);
        let ghost after = all.take(i + 1);
        let ghost channel = entries@[i as int].0@;
        let views = entries[i].1;
        proof {
            assert(after.drop_last() =~= before);
            assert(after.last() == (channel, views));
        }
        let mut found: Option<usize> = None;
        let mut j: usize = 0;
        while found.is_none() && j < totals.len()
            invariant
                j <= totals.len(),
                found matches Some(p) ==> p < totals.len() && totals@[p as int].0@ == channel,
                found is None ==> forall|k: int| 0 <= k < j ==> totals@[k].0@ != channel,
                channel == entries@[i as int].0@,
                i < entries.len(),
            decreases totals.len() - j,
        {
            if totals[j].0 == entries[i].0 {
                found = Some(j);
            }
            j = j + 1;
        }
        proof {
            assert(totals_view(totals@).len() == channels_in_order(before).len());
            assert forall|k: int| 0 <= k < totals@.len() implies #[trigger] channels_in_order(before)[k] == totals@[k].0@ by {
                assert(totals_view(totals@)[k] == channel_totals(before)[k]);
            }
        }
        match found {
            Some(p) => {
                proof {
                    assert(channels_in_order(before)[p as int] == channel);
                    assert(channels_in_order(before).contains(channel));
                    assert(channels_in_order(after) == channels_in_order(before));
                    assert(totals_view(totals@)[p as int] == channel_totals(before)[p as int]);
                }
                let current = totals[p].1;
                match current.checked_add(views) {
                    Some(sum) => {
                        let name = entries[i].0.clone();
                        let ghost old_totals = totals@;
                        totals.set(p, (name, sum));
                        proof {
                            assert forall|k: int| 0 <= k < totals@.len() implies #[trigger] totals_view(totals@)[k]
                                == channel_totals(after)[k] by {
                                let c = channels_in_order(before)[k];
                                assert(totals_view(old_totals)[k] == channel_totals(before)[k]);
                                if k == p {
                                    assert(views_of(after, c) == views_of(before, c) + views);
                                } else {
                                    assert(c != channel) by {
                                        lemma_channels_distinct(before);
                                    }
                                    assert(views_of(after, c) == views_of(before, c));
                                }
                            }
                            assert(totals_view(totals@) =~= channel_totals(after));
                        }
                    },
                    None => {
                        proof {
                            assert(views_of(after, channel) == views_of(before, channel) + views);
                            lemma_views_grow(all, i + 1, channel);
                            assert(views_of(all, channel) > u64::MAX);
                        }
                        return None;
                    },
                }
            },
            None => {
                proof {
                    assert(!channels_in_order(before).contains(channel)) by {
                        if channels_in_order(before).contains(channel) {
                            let k = choose|k: int| 0 <= k < channels_in_order(before).len() && channels_in_order(before)[k] == channel;
                            assert(totals@[k].0@ == channels_in_order(before)[k]);
                        }
                    }
                    lemma_absent_channel_has_no_views(before, channel);
                    assert(channels_in_order(after) == channels_in_order(before).push(channel));
                }
                let name = entries[i].0.clone();
                let ghost old_totals = totals@;
                totals.push((name, views));
                proof {
                    assert forall|k: int| 0 <= k < totals@.len() implies #[trigger] totals_view(totals@)[k]
                        == channel_totals(after)[k] by {
                        if k < old_totals.len() {
                            let c = channels_in_order(before)[k];
                            assert(totals_view(old_totals)[k] == channel_totals(before)[k]);
                            assert(c != channel);
                            assert(views_of(after, c) == views_of(before, c));
                        } else {
                            assert(views_of(after, channel) == views);
                        }
                    }
                    assert(totals_view(totals@) =~= channel_totals(after));
                }
            },
        }
        i = i + 1;
    }
    proof {
        assert(all.take(i as int) =~= all);
    }
    Some(totals)
}

/// Whether `top` holds the `count` channels of `totals` with the most
/// views, most first, `picked` giving the position in `totals` of each:
/// distinct positions, and no channel left out has more views than one
/// kept. Channels with equal views may come in any order.
pub open spec fn is_top(
    totals: Seq<(Seq<char>, u64)>,
    count: nat,
    top: Seq<(Seq<char>, u64)>,
    picked: Seq<int>,
) -> bool {
    &&& top.len() == if count < totals.len() {
        count
    } else {
        totals.len()
    }
    &&& picked.len() == top.len()
    &&& picked.no_duplicates()
    &&& forall|i: int| 0 <= i < picked.len() ==> 0 <= #[trigger] picked[i] < totals.len() && top[i] == totals[picked[i]]
    &&& forall|i: int, j: int| 0 <= i < j < top.len() ==> top[i].1 >= top[j].1
    &&& forall|k: int, i: int|
        #![trigger totals[k], top[i]]
        0 <= k < totals.len() && !picked.contains(k) && 0 <= i < top.len() ==> totals[k].1 <= top[i].1
}

proof fn lemma_free_position(picked: Seq<int>, n: int)
    requires
        picked.no_duplicates(),
        forall|i: int| 0 <= i < picked.len() ==> 0 <= #[trigger] picked[i] < n,
        picked.len() < n,
    ensures
        exists|k: int| 0 <= k < n && !picked.contains(k),
{
    if forall|k: int| 0 <= k < n ==> picked.contains(k) {
        vstd::set_lib::lemma_int_range(0, n);
        picked.unique_seq_to_set();
        assert(vstd::set_lib::set_int_range(0, n).subset_of(picked.to_set()));
        vstd::set_lib::lemma_len_subset(vstd::set_lib::set_int_range(0, n), picked.to_set());
    }
}

/// The `count` channels of `totals` with the most views, most first, as
/// `is_top` says; of channels with equal views the earlier one in `totals`
/// is taken first.
pub fn top_channels(totals: &Vec<(String, u64)>, count: usize) -> (top: Vec<(String, u64)>)
    ensures
        exists|picked: Seq<int>| is_top(entry_views(totals@), count as nat, entry_views(top@), picked),
{
    let ghost all = entry_views(totals@);
    let n = totals.len();
    let mut taken: Vec<bool> = Vec::new();
    let mut k: usize = 0;
    while k < n
        invariant
            k <= n,
            n == totals.len(),
            taken@.len() == k,
            forall|m: int| 0 <= m < k ==> !taken@[m],
        decreases n - k,
    {
        taken.push(false);
        k = k + 1;
    }
    let mut top: Vec<(String, u64)> = Vec::new();
    let ghost mut picked: Seq<int> = Seq::empty();
    while top.len() < count && top.len() < n
        invariant
            n == totals.len(),
            all == entry_views(totals@),
            all.len() == n,
            taken@.len() == n,
            top@.len() <= count,
            top@.len() <= n,
            picked.len() == top@.len(),
            picked.no_duplicates(),
            forall|i: int| 0 <= i < picked.len() ==> 0 <= #[trigger] picked[i] < n && entry_views(top@)[i] == all[picked[i]],
            forall|m: int| 0 <= m < n ==> (taken@[m] <==> picked.contains(m)),
            forall|i: int, j: int| 0 <= i < j < top@.len() ==> entry_views(top@)[i].1 >= entry_views(top@)[j].1,
            forall|m: int, i: int|
                #![trigger all[m], entry_views(top@)[i]]
                0 <= m < n && !picked.contains(m) && 0 <= i < top@.len() ==> all[m].1 <= entry_views(top@)[i].1,
        decreases n - top@.len(),
    {
        proof {
            lemma_free_position(picked, n as int);
        }
        let mut best: Option<usize> = None;
        let mut j: usize = 0;
        while j < n
            invariant
                j <= n,
                n == totals.len(),
                taken@.len() == n,
                best matches Some(b) ==> b < j && !taken@[b as int] && forall|m: int|
                    0 <= m < j && !taken@[m] ==> totals@[m].1 <= totals@[b as int].1,
                best is None ==> forall|m: int| 0 <= m < j ==> taken@[m],
            decreases n - j,
        {
            if !taken[j] {
                match best {
                    Some(b) => {
                        if totals[j].1 > totals[b].1 {
                            best = Some(j);
                        }
                    },
                    None => {
                        best = Some(j);
                    },
                }
            }
            j = j + 1;
        }
        let b = match best {
            Some(b) => b,
            None => {
                proof {
                    let m = choose|m: int| 0 <= m < n && !picked.contains(m);
                    assert(taken@[m]);
                }
                return top;
            },
        };
        let ghost old_top = entry_views(top@);
        let ghost old_picked = picked;
        let ghost old_taken = taken@;
        proof {
            assert(all[b as int] == (totals@[b as int].0@, totals@[b as int].1));
            assert(!old_picked.contains(b as int));
        }
        top.push((totals[b].0.clone(), totals[b].1));
        taken.set(b, true);
        proof {
            picked = picked.push(b as int);
            assert(entry_views(top@) =~= old_top.push(all[b as int]));
            assert(picked.no_duplicates()) by {
                assert forall|x: int, y: int| 0 <= x < y < picked.len() implies picked[x] != picked[y] by {
                    if y == picked.len() - 1 {
                        assert(old_picked.contains(picked[x]));
                    }
                }
            }
            assert forall|m: int| 0 <= m < n implies (taken@[m] <==> picked.contains(m)) by {
                if m == b {
                    assert(picked[picked.len() - 1] == m);
                } else {
                    assert(taken@[m] == old_taken[m]);
                }
                if picked.contains(m) && m != b {
                    let x = choose|x: int| 0 <= x < picked.len() && picked[x] == m;
                    assert(old_picked[x] == m);
                }
                if old_picked.contains(m) {
                    let x = choose|x: int| 0 <= x < old_picked.len() && old_picked[x] == m;
                    assert(picked[x] == m);
                }
            }
            assert forall|m: int, i: int|
                #![trigger all[m], entry_views(top@)[i]]
                0 <= m < n && !picked.contains(m) && 0 <= i < top@.len() implies all[m].1 <= entry_views(top@)[i].1 by {
                assert(!old_picked.contains(m)) by {
                    if old_picked.contains(m) {
                        let x = choose|x: int| 0 <= x < old_picked.len() && old_picked[x] == m;
                        assert(picked[x] == m);
                    }
                }
                if i == top@.len() - 1 {
                    assert(!taken@[m] || m == b);
                }
            }
        }
    }
    proof {
        assert(is_top(all, count as nat, entry_views(top@), picked));
    }
    top
}

/// `digits` with a comma before each group of three digits counted from
/// the right, as in `1,234,567`.
pub open spec fn separated_thousands(digits: Seq<char>) -> Seq<char>
    decreases digits.len(),
{
    if digits.len() <= 3 {
        digits
    } else {
        separated_thousands(digits.take(digits.len() - 3)) + seq![','] + digits.skip(digits.len() - 3)
    }
}

/// `s` without its commas.
pub open spec fn without_commas(s: Seq<char>) -> Seq<char>
    decreases s.len(),
{
    if s.len() == 0 {
        s
    } else {
        without_commas(s.drop_last()) + if s.last() == ',' {
            Seq::<char>::empty()
        } else {
            seq![s.last()]
        }
    }
}

proof fn lemma_without_commas_concat(a: Seq<char>, b: Seq<char>)
    ensures
        without_commas(a + b) == without_commas(a) + without_commas(b),
    decreases b.len(),
{
    if b.len() == 0 {
        assert(a + b =~= a);
        assert(without_commas(a) + without_commas(b) =~= without_commas(a));
    } else {
        lemma_without_commas_concat(a, b.drop_last());
        assert((a + b).drop_last() =~= a + b.drop_last());
        assert((a + b).last() == b.last());
        if b.last() == ',' {
            assert(without_commas(a) + without_commas(b.drop_last()) =~= without_commas(a) + without_commas(b));
        } else {
            assert(without_commas(a) + without_commas(b.drop_last()) + seq![b.last()] =~= without_commas(a)
                + without_commas(b));
        }
    }
}

proof fn lemma_no_commas_kept(s: Seq<char>)
    requires
        forall|i: int| 0 <= i < s.len() ==> s[i] != ',',
    ensures
        without_commas(s) == s,
    decreases s.len(),
{
    if s.len() > 0 {
        lemma_no_commas_kept(s.drop_last());
        assert(without_commas(s.drop_last()) + seq![s.last()] =~= s);
    }
}

/// Separating digits by thousands adds commas and nothing else: without
/// its commas the text is the digits again.
pub proof fn law_separators_keep_digits(digits: Seq<char>)
    requires
        forall|i: int| 0 <= i < digits.len() ==> digits[i] != ',',
    ensures
        without_commas(separated_thousands(digits)) == digits,
    decreases digits.len(),
{
    if digits.len() <= 3 {
        lemma_no_commas_kept(digits);
    } else {
        let head = digits.take(digits.len() - 3);
        let tail = digits.skip(digits.len() - 3);
        law_separators_keep_digits(head);
        lemma_without_commas_concat(separated_thousands(head), seq![',']);
        lemma_without_commas_concat(separated_thousands(head) + seq![','], tail);
        lemma_no_commas_kept(tail);
        assert(without_commas(seq![',']) =~= Seq::<char>::empty()) by {
            assert(seq![','].drop_last() =~= Seq::<char>::empty());
            assert(seq![','].last() == ',');
            assert(without_commas(Seq::<char>::empty()) == Seq::<char>::empty());
        }
        assert(head + Seq::<char>::empty() + tail =~= digits);
    }
}

/// The first `end` characters of `digits`, separated by thousands.
fn separate(digits: &Vec<char>, end: usize) -> (out: Vec<char>)
    requires
        end <= digits.len(),
    ensures
        out@ == separated_thousands(digits@.take(end as int)),
    decreases end,
{
    if end <= 3 {
        let mut out: Vec<char> = Vec::new();
        let mut i: usize = 0;
        while i < end
            invariant
                i <= end,
                end <= digits.len(),
                out@ == digits@.take(i as int),
            decreases end - i,
        {
            out.push(digits[i]);
            assert(out@ =~= digits@.take(i + 1));
            i = i + 1;
        }
        return out;
    }
    let mut out = separate(digits, end - 3);
    let ghost head = out@;
    out.push(',');
    out.push(digits[end - 3]);
    out.push(digits[end - 2]);
    out.push(digits[end - 1]);
    proof {
        let t = digits@.take(end as int);
        assert(t.take(end - 3) =~= digits@.take(end - 3));
        assert(t.skip(end - 3) =~= seq![digits@[end - 3], digits@[end - 2], digits@[end - 1]]);
        assert(out@ =~= head + seq![','] + t.skip(end - 3));
    }
    out
}

/// The views written in decimal with a comma every three digits, as in
/// `1,234,567`.
pub fn views_with_separators(views: u64) -> (text: String)
    ensures
        text@ == separated_thousands(decimal_text(views as nat)),
{
    let digits = chars_of(decimal(views).as_str());
    let out = separate(&digits, digits.len());
    proof {
        assert(digits@.take(digits@.len() as int) =~= digits@);
    }
    text_of(&out)
}

/// How many channels the ranking shows.
pub const TOP_CHANNELS: usize = 10;

/// The entries of a dataset file given by its lines: every line but the
/// first, which names the columns.
pub open spec fn file_entries(lines: Seq<Seq<char>>) -> Seq<(Seq<char>, u64)> {
    if lines.len() == 0 {
        Seq::empty()
    } else {
        lines.skip(1).map_values(|line: Seq<char>| line_entry(line))
    }
}

/// The entries of all dataset files, file after file.
pub open spec fn dataset_entries(files: Seq<Seq<Seq<char>>>) -> Seq<(Seq<char>, u64)>
    decreases files.len(),
{
    if files.len() == 0 {
        Seq::empty()
    } else {
        dataset_entries(files.drop_last()) + file_entries(files.last())
    }
}

/// The texts of the lines of each file.
pub open spec fn file_texts(files: Seq<Vec<String>>) -> Seq<Seq<Seq<char>>> {
    files.map_values(|lines: Vec<String>| lines@.map_values(|line: String| line@))
}

/// Whether `ranking` shows `top` with the views separated by thousands.
pub open spec fn shows(ranking: Seq<(String, String)>, top: Seq<(Seq<char>, u64)>) -> bool {
    &&& ranking.len() == top.len()
    &&& forall|i: int|
        0 <= i < top.len() ==> (#[trigger] ranking[i]).0@ == top[i].0 && ranking[i].1@ == separated_thousands(
            decimal_text(top[i].1 as nat),
        )
}

/// The channels with the most views over all the dataset files, given by
/// their lines, with their total views separated by thousands, most first;
/// nothing when a channel's total does not fit in `u64`.
pub fn channel_ranking(files: &Vec<Vec<String>>) -> (ranking: Option<Vec<(String, String)>>)
    ensures
        match ranking {
            None => exists|channel: Seq<char>|
                views_of(dataset_entries(file_texts(files@)), channel) > u64::MAX,
            Some(r) => exists|totals: Seq<(Seq<char>, u64)>, top: Seq<(Seq<char>, u64)>, picked: Seq<int>|
                {
                    &&& totals.map_values(|t: (Seq<char>, u64)| (t.0, t.1 as nat)) == channel_totals(
                        dataset_entries(file_texts(files@)),
                    )
                    &&& is_top(totals, TOP_CHANNELS as nat, top, picked)
                    &&& shows(r@, top)
                },
        },
{
    let ghost texts = file_texts(files@);
    let mut entries: Vec<(String, u64)> = Vec::new();
    let mut f: usize = 0;
    while f < files.len()
        invariant
            f <= files.len(),
            texts == file_texts(files@),
            entry_views(entries@) == dataset_entries(texts.take(f as int)),
        decreases files.len() - f,
    {
        let lines = &files[f];
        let ghost before = entry_views(entries@);
        proof {
            assert(texts.take(f + 1).drop_last() =~= texts.take(f as int));
            assert(texts.take(f + 1).last() == lines@.map_values(|line: String| line@));
        }
        let ghost lt = lines@.map_values(|line: String| line@);
        if lines.len() > 0 {
            let mut l: usize = 1;
            proof {
                assert(lt.skip(1).take(0) =~= Seq::<Seq<char>>::empty());
                assert(entry_views(entries@) =~= before + Seq::<(Seq<char>, u64)>::empty());
            }
            while l < lines.len()
                invariant
                    1 <= l <= lines.len(),
                    lt == lines@.map_values(|line: String| line@),
                    entry_views(entries@) == before + lt.skip(1).take(l - 1).map_values(
                        |line: Seq<char>| line_entry(line),
                    ),
                decreases lines.len() - l,
            {
                let entry = line_views(lines[l].as_str());
                let ghost old_entries = entries@;
                entries.push(entry);
                proof {
                    assert(lt[l as int] == lines@[l as int]@);
                    assert(lt.skip(1).take(l as int) =~= lt.skip(1).take(l - 1).push(lt[l as int]));
                    assert(entry_views(entries@) =~= entry_views(old_entries).push((entry.0@, entry.1)));
                    assert(entry_views(entries@) =~= before + lt.skip(1).take(l as int).map_values(
                        |line: Seq<char>| line_entry(line),
                    ));
                }
                l = l + 1;
            }
            proof {
                assert(lt.skip(1).take(l - 1) =~= lt.skip(1));
            }
        } else {
            proof {
                assert(file_entries(lt) =~= Seq::<(Seq<char>, u64)>::empty());
                assert(entry_views(entries@) =~= before + Seq::<(Seq<char>, u64)>::empty());
            }
        }
        proof {
            assert(entry_views(entries@) =~= dataset_entries(texts.take(f + 1)));
        }
        f = f + 1;
    }
    proof {
        assert(texts.take(f as int) =~= texts);
    }
    let totals = match total_views_by_channel(&entries) {
        Some(totals) => totals,
        None => {
            return None;
        },
    };
    let top = top_channels(&totals, TOP_CHANNELS);
    let mut ranking: Vec<(String, String)> = Vec::new();
    let mut i: usize = 0;
    while i < top.len()
        invariant
            i <= top.len(),
            ranking@.len() == i,
            forall|k: int|
                0 <= k < i ==> (#[trigger] ranking@[k]).0@ == top@[k].0@ && ranking@[k].1@ == separated_thousands(
                    decimal_text(top@[k].1 as nat),
                ),
        decreases top.len() - i,
    {
        let shown = views_with_separators(top[i].1);
        ranking.push((top[i].0.clone(), shown));
        i = i + 1;
    }
    proof {
        let t = entry_views(totals@);
        assert(t.map_values(|x: (Seq<char>, u64)| (x.0, x.1 as nat)) =~= totals_view(totals@));
        let picked = choose|picked: Seq<int>| is_top(t, TOP_CHANNELS as nat, entry_views(top@), picked);
        assert(shows(ranking@, entry_views(top@)));
        assert(is_top(t, TOP_CHANNELS as nat, entry_views(top@), picked));
    }
    Some(ranking)
}

} // verus!
