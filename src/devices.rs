use vstd::prelude::*;

verus! {

/// Character that ends each entry of a discovered-device list.
pub const DEVICE_SEPARATOR: char = '@';

/// The pieces of `s` between occurrences of `sep`, in order; always at least
/// one piece, empty pieces included.
pub open spec fn split_on(s: Seq<char>, sep: char) -> Seq<Seq<char>>
    decreases s.len(),
{
    if s.len() == 0 {
        seq![Seq::<char>::empty()]
    } else {
        let p = split_on(s.drop_last(), sep);
        if s.last() == sep {
            p.push(Seq::<char>::empty())
        } else {
            p.update(p.len() - 1, p.last().push(s.last()))
        }
    }
}

/// The entries of a device list: its pieces between separators, less a
/// trailing empty piece.
pub open spec fn device_entries(s: Seq<char>) -> Seq<Seq<char>> {
    let p = split_on(s, DEVICE_SEPARATOR);
    if p.last().len() == 0 {
        p.drop_last()
    } else {
        p
    }
}

/// The text of each string, in order.
pub open spec fn string_views(v: Seq<String>) -> Seq<Seq<char>> {
    v.map_values(|x: String| x@)
}

/// Splitting never yields an empty list of pieces.
pub proof fn lemma_split_on_nonempty(s: Seq<char>, sep: char)
    ensures
        split_on(s, sep).len() >= 1,
    decreases s.len(),
{
    if s.len() > 0 {
        lemma_split_on_nonempty(s.drop_last(), sep);
    }
}

/// No entry of a device list holds the separator.
pub proof fn lemma_device_entries_hold_no_separator(s: Seq<char>)
    ensures
        forall|i: int, j: int|
            0 <= i < device_entries(s).len() && 0 <= j < device_entries(s)[i].len()
                ==> device_entries(s)[i][j] != DEVICE_SEPARATOR,
{
    let p = split_on(s, DEVICE_SEPARATOR);
    lemma_split_on_nonempty(s, DEVICE_SEPARATOR);
    lemma_split_on_no_separator(s, DEVICE_SEPARATOR);
    assert forall|i: int, j: int|
        0 <= i < device_entries(s).len() && 0 <= j < device_entries(s)[i].len() implies device_entries(
        s,
    )[i][j] != DEVICE_SEPARATOR by {
        assert(device_entries(s)[i] == p[i]);
    }
}

proof fn lemma_split_on_no_separator(s: Seq<char>, sep: char)
    ensures
        forall|i: int, j: int|
            0 <= i < split_on(s, sep).len() && 0 <= j < split_on(s, sep)[i].len()
                ==> split_on(s, sep)[i][j] != sep,
    decreases s.len(),
{
    if s.len() > 0 {
        lemma_split_on_no_separator(s.drop_last(), sep);
        lemma_split_on_nonempty(s.drop_last(), sep);
    }
}

/// Splits a device list into its entries.
pub fn split_devices(devs: &str) -> (r: Vec<String>)
    ensures
        string_views(r@) == device_entries(devs@),
{
    let n = devs.unicode_len();
    let mut segs: Vec<String> = Vec::new();
    let mut start: usize = 0;
    let mut i: usize = 0;
    assert(devs@.take(0) =~= Seq::<char>::empty());
    assert(string_views(segs@).push(devs@.subrange(0, 0)) =~= seq![Seq::<char>::empty()]);
    while i < n
        invariant
            n == devs@.len(),
            start <= i <= n,
            split_on(devs@.take(i as int), DEVICE_SEPARATOR) == string_views(segs@).push(
                devs@.subrange(start as int, i as int),
            ),
        decreases n - i,
    {
        let c = devs.get_char(i);
        let ghost prev = devs@.take(i as int);
        let ghost old_segs = segs@;
        assert(devs@.take(i + 1).drop_last() =~= prev);
        assert(devs@.take(i + 1).last() == c);
        let ghost cur = devs@.take(i + 1);
        assert(cur.len() > 0);
        if c == DEVICE_SEPARATOR {
            assert(split_on(cur, DEVICE_SEPARATOR) == split_on(prev, DEVICE_SEPARATOR).push(
                Seq::<char>::empty(),
            ));
            let piece = devs.substring_char(start, i).to_owned();
            segs.push(piece);
            assert(string_views(segs@) =~= string_views(old_segs).push(
                devs@.subrange(start as int, i as int),
            ));
            start = i + 1;
            i = i + 1;
            assert(devs@.subrange(start as int, i as int) =~= Seq::<char>::empty());
            assert(string_views(segs@).push(devs@.subrange(start as int, i as int)) =~= split_on(
                devs@.take(i as int),
                DEVICE_SEPARATOR,
            ));
        } else {
            i = i + 1;
            assert(devs@.subrange(start as int, i as int) =~= devs@.subrange(
                start as int,
                i - 1,
            ).push(c));
            assert(string_views(segs@).push(devs@.subrange(start as int, i as int)) =~= split_on(
                devs@.take(i as int),
                DEVICE_SEPARATOR,
            ));
        }
    }
    assert(devs@.take(n as int) =~= devs@);
    if start < n {
        let piece = devs.substring_char(start, n).to_owned();
        segs.push(piece);
        assert(string_views(segs@) =~= split_on(devs@, DEVICE_SEPARATOR));
    } else {
        assert(string_views(segs@) =~= split_on(devs@, DEVICE_SEPARATOR).drop_last());
    }
    segs
}

} // verus!
