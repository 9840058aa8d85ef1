//! Ordering the creators of a record by one of its columns.
//!
//! The order is made on the indices of the entries. Entries come in rising
//! order of the chosen column; among entries equal there, the one with more
//! subscribers comes first; among entries equal there too, the one that stood
//! first stays first.

use crate::creator::{texts, CreatorColumns, YTCreator};
use crate::permutation::{gather, identity, is_permutation, lemma_permutation_onto};
use crate::text::{decimal_i32, flag_value, parse_bool, parse_i32};
use vstd::prelude::*;

verus! {

/// The columns by which a record can be ordered.
#[derive(Debug, Clone, Copy, PartialEq, Eq, Structural)]
pub enum AllowedFieldNamesForSorting {
    Subscribers,
    IsLiveStatus,
}

impl Default for AllowedFieldNamesForSorting {
    fn default() -> (r: AllowedFieldNamesForSorting)
        ensures
            r == AllowedFieldNamesForSorting::Subscribers,
    {
        AllowedFieldNamesForSorting::Subscribers
    }
}

/// The number by which an entry of the chosen column is ordered: 0 and 1 for
/// the flags `false` and `true`, the number written for a count; `None` where
/// the text is neither.
pub open spec fn sort_key(entry: Seq<char>, is_bool: bool) -> Option<int> {
    if is_bool {
        match flag_value(entry) {
            Some(flag) => Some(if flag { 1int } else { 0int }),
            None => None,
        }
    } else {
        decimal_i32(entry)
    }
}

/// Whether every entry of `column` has a sort key.
pub open spec fn all_keyed(column: Seq<Seq<char>>, is_bool: bool) -> bool {
    forall|i: int| 0 <= i < column.len() ==> sort_key(#[trigger] column[i], is_bool) is Some
}

/// The sort keys of a column whose entries all have one.
pub open spec fn sort_keys(column: Seq<Seq<char>>, is_bool: bool) -> Seq<int> {
    Seq::new(column.len(), |i: int| sort_key(column[i], is_bool).unwrap())
}

/// Whether entry `i` comes before entry `j`: by rising key, then by falling
/// subscriber count, then by rising index.
pub open spec fn precedes(keys: Seq<int>, counts: Seq<int>, i: int, j: int) -> bool {
    ||| keys[i] < keys[j]
    ||| keys[i] == keys[j] && counts[i] > counts[j]
    ||| keys[i] == keys[j] && counts[i] == counts[j] && i < j
}

/// Whether `order` lists the indices of all entries, each before every entry
/// that it precedes.
pub open spec fn is_sorted_order(keys: Seq<int>, counts: Seq<int>, order: Seq<usize>) -> bool {
    &&& order.len() == keys.len()
    &&& is_permutation(order)
    &&& forall|a: int, b: int|
        0 <= a < b < order.len() ==> precedes(
            keys,
            counts,
            #[trigger] order[a] as int,
            #[trigger] order[b] as int,
        )
}

/// The order in which the entries with these keys and subscriber counts come.
pub open spec fn sorted_order(keys: Seq<int>, counts: Seq<int>) -> Seq<usize> {
    choose|order: Seq<usize>| is_sorted_order(keys, counts, order)
}

/// Whether `order` lists the first `order.len()` entries, each once and each
/// before every entry that it precedes.
spec fn is_sorted_prefix(keys: Seq<int>, counts: Seq<int>, order: Seq<usize>) -> bool {
    &&& forall|a: int| 0 <= a < order.len() ==> #[trigger] order[a] < order.len()
    &&& forall|a: int, b: int|
        0 <= a < b < order.len() ==> #[trigger] order[a] != #[trigger] order[b] && precedes(
            keys,
            counts,
            order[a] as int,
            order[b] as int,
        )
}

/// The first place from `from` on whose entry comes after the entry `next`,
/// or the length of `order` where there is none.
spec fn place_for(
    keys: Seq<int>,
    counts: Seq<int>,
    order: Seq<usize>,
    next: int,
    from: int,
) -> int
    decreases order.len() - from,
{
    if 0 <= from < order.len() && !precedes(keys, counts, next, order[from] as int) {
        place_for(keys, counts, order, next, from + 1)
    } else {
        from
    }
}

/// Where `place_for` stops: the entries before that place do not come after
/// `next`, and the entry at that place does.
proof fn lemma_place_for(keys: Seq<int>, counts: Seq<int>, order: Seq<usize>, next: int, from: int)
    requires
        0 <= from <= order.len(),
    ensures
        from <= place_for(keys, counts, order, next, from) <= order.len(),
        forall|k: int|
            from <= k < place_for(keys, counts, order, next, from) ==> !precedes(
                keys,
                counts,
                next,
                #[trigger] order[k] as int,
            ),
        place_for(keys, counts, order, next, from) < order.len() ==> precedes(
            keys,
            counts,
            next,
            order[place_for(keys, counts, order, next, from)] as int,
        ),
    decreases order.len() - from,
{
    if from < order.len() && !precedes(keys, counts, next, order[from] as int) {
        lemma_place_for(keys, counts, order, next, from + 1);
    }
}

/// The first `m` entries can be put in sorted order.
proof fn lemma_sorted_prefix_exists(keys: Seq<int>, counts: Seq<int>, m: nat)
    requires
        m <= usize::MAX,
    ensures
        exists|order: Seq<usize>|
            #![trigger is_sorted_prefix(keys, counts, order)]
            order.len() == m && is_sorted_prefix(keys, counts, order),
    decreases m,
{
    if m == 0 {
        let order = Seq::<usize>::empty();
        assert(order.len() == m && is_sorted_prefix(keys, counts, order));
    } else {
        lemma_sorted_prefix_exists(keys, counts, (m - 1) as nat);
        let before = choose|order: Seq<usize>|
            #![trigger is_sorted_prefix(keys, counts, order)]
            order.len() == m - 1 && is_sorted_prefix(keys, counts, order);
        let next = (m - 1) as usize;
        let pos = place_for(keys, counts, before, next as int, 0);
        lemma_place_for(keys, counts, before, next as int, 0);
        let order = before.insert(pos, next);
        assert(order.len() == m && is_sorted_prefix(keys, counts, order));
    }
}

/// There is a sorted order of any entries: `sorted_order` is one.
pub proof fn lemma_sorted_order_exists(keys: Seq<int>, counts: Seq<int>)
    requires
        keys.len() <= usize::MAX,
    ensures
        is_sorted_order(keys, counts, sorted_order(keys, counts)),
{
    lemma_sorted_prefix_exists(keys, counts, keys.len());
    let order = choose|order: Seq<usize>|
        #![trigger is_sorted_prefix(keys, counts, order)]
        order.len() == keys.len() && is_sorted_prefix(keys, counts, order);
    assert(is_sorted_order(keys, counts, order));
}

/// Two sorted orders of the same entries agree on their first `k` places.
proof fn lemma_sorted_orders_agree(
    keys: Seq<int>,
    counts: Seq<int>,
    first: Seq<usize>,
    second: Seq<usize>,
    k: int,
)
    requires
        is_sorted_order(keys, counts, first),
        is_sorted_order(keys, counts, second),
        0 <= k <= keys.len(),
    ensures
        forall|j: int| 0 <= j < k ==> first[j] == second[j],
    decreases k,
{
    if k > 0 {
        lemma_sorted_orders_agree(keys, counts, first, second, k - 1);
        let x = first[k - 1];
        let y = second[k - 1];
        if x != y {
            // Each of the two stands later in the other order, so each would
            // precede the other.
            lemma_permutation_onto(second, x);
            lemma_permutation_onto(first, y);
        }
    }
}

/// The sorted order is unique: a list that is in sorted order is the sorted
/// order.
pub proof fn lemma_sorted_order_unique(keys: Seq<int>, counts: Seq<int>, order: Seq<usize>)
    requires
        is_sorted_order(keys, counts, order),
    ensures
        order == sorted_order(keys, counts),
{
    let chosen = sorted_order(keys, counts);
    lemma_sorted_orders_agree(keys, counts, order, chosen, keys.len() as int);
}

/// Reordering keeps what ordering needs: a record that can be ordered by a
/// column can still be ordered by it after its creators were put in another
/// order.
pub proof fn lemma_reordered_stays_sortable(
    columns: CreatorColumns,
    order: Seq<usize>,
    field_name: AllowedFieldNamesForSorting,
)
    requires
        columns.sortable_by_name(field_name),
        is_permutation(order),
        order.len() == columns.names.len(),
    ensures
        columns.reordered(order).sortable_by_name(field_name),
{
}

/// Ordering twice is ordering once: once the creators stand in the order by a
/// column, the order by that column is the one in which they stand, and
/// ordering them again leaves the record as it is.
pub proof fn lemma_sorted_record_in_order(
    columns: CreatorColumns,
    field_name: AllowedFieldNamesForSorting,
)
    requires
        columns.names.len() <= usize::MAX,
        columns.sortable_by_name(field_name),
    ensures
        ({
            let sorted = columns.reordered(columns.order_by_name(field_name));
            &&& sorted.sortable_by_name(field_name)
            &&& sorted.order_by_name(field_name) == identity(columns.names.len())
            &&& sorted.reordered(sorted.order_by_name(field_name)) == sorted
        }),
{
    let n = columns.names.len();
    let order = columns.order_by_name(field_name);
    lemma_sorted_order_exists(
        sort_keys(columns.sort_field(field_name), reads_flags(field_name)),
        sort_keys(columns.subscribers, false),
    );
    lemma_reordered_stays_sortable(columns, order, field_name);
    let after = columns.reordered(order);
    let keys = sort_keys(columns.sort_field(field_name), reads_flags(field_name));
    let counts = sort_keys(columns.subscribers, false);
    let keys_after = sort_keys(after.sort_field(field_name), reads_flags(field_name));
    let counts_after = sort_keys(after.subscribers, false);
    let same = identity(n);
    lemma_sorted_order_unique(keys_after, counts_after, same);
    assert(gather(after.names, same) =~= after.names);
    assert(gather(after.avatar_links, same) =~= after.avatar_links);
    assert(gather(after.descriptions, same) =~= after.descriptions);
    assert(gather(after.is_live_status, same) =~= after.is_live_status);
    assert(gather(after.subscribers, same) =~= after.subscribers);
}

/// The numbers of a list of machine integers.
pub open spec fn ints(s: Seq<i32>) -> Seq<int> {
    Seq::new(s.len(), |i: int| s[i] as int)
}

impl CreatorColumns {
    /// The record with the entries of every column in the order that `order`
    /// lists them.
    pub open spec fn reordered(self, order: Seq<usize>) -> CreatorColumns {
        CreatorColumns {
            names: gather(self.names, order),
            avatar_links: gather(self.avatar_links, order),
            descriptions: gather(self.descriptions, order),
            is_live_status: gather(self.is_live_status, order),
            subscribers: gather(self.subscribers, order),
        }
    }

    /// Whether the record can be ordered by the column `field`, read as flags
    /// or as counts: `field` is as long as every column, each of its entries
    /// has a sort key, and every subscriber count is a number.
    pub open spec fn sortable(self, field: Seq<Seq<char>>, is_bool: bool) -> bool {
        &&& self.all_have_len(field.len())
        &&& all_keyed(field, is_bool)
        &&& all_keyed(self.subscribers, false)
    }

    /// The order in which the creators come by the column `field`, read as
    /// flags or as counts.
    pub open spec fn order_by(self, field: Seq<Seq<char>>, is_bool: bool) -> Seq<usize> {
        sorted_order(sort_keys(field, is_bool), sort_keys(self.subscribers, false))
    }

    /// Whether `order` lists the creators in the order by the column that
    /// `field_name` chooses.
    pub open spec fn in_order_by_name(
        self,
        field_name: AllowedFieldNamesForSorting,
        order: Seq<usize>,
    ) -> bool {
        is_sorted_order(
            sort_keys(self.sort_field(field_name), reads_flags(field_name)),
            sort_keys(self.subscribers, false),
            order,
        )
    }

    /// The order in which the creators come by the column that `field_name`
    /// chooses.
    pub open spec fn order_by_name(self, field_name: AllowedFieldNamesForSorting) -> Seq<usize> {
        self.order_by(self.sort_field(field_name), reads_flags(field_name))
    }

    /// Whether the record can be ordered by the column that `field_name`
    /// chooses.
    pub open spec fn sortable_by_name(self, field_name: AllowedFieldNamesForSorting) -> bool {
        self.sortable(self.sort_field(field_name), reads_flags(field_name))
    }

    /// The column that `field_name` chooses.
    pub open spec fn sort_field(self, field_name: AllowedFieldNamesForSorting) -> Seq<Seq<char>> {
        match field_name {
            AllowedFieldNamesForSorting::Subscribers => self.subscribers,
            AllowedFieldNamesForSorting::IsLiveStatus => self.is_live_status,
        }
    }
}

/// Whether `field_name` chooses a column of flags.
pub open spec fn reads_flags(field_name: AllowedFieldNamesForSorting) -> bool {
    field_name == AllowedFieldNamesForSorting::IsLiveStatus
}

/// The sort keys of a column, or `None` where an entry has none.
fn read_keys(column: &Vec<String>, is_bool: bool) -> (r: Option<Vec<i32>>)
    ensures
        r is Some <==> all_keyed(texts(column@), is_bool),
        r matches Some(keys) ==> ints(keys@) == sort_keys(texts(column@), is_bool),
{
    let n: usize = column.len();
    let mut keys: Vec<i32> = Vec::new();
    let mut i: usize = 0;
    while i < n
        invariant
            i <= n,
            n == column@.len(),
            keys@.len() == i,
            forall|j: int|
                0 <= j < i ==> sort_key(#[trigger] texts(column@)[j], is_bool) == Some(
                    keys@[j] as int,
                ),
        decreases n - i,
    {
        let entry: &str = column[i].as_str();
        assert(texts(column@)[i as int] == entry@);
        let key: Option<i32> = if is_bool {
            match parse_bool(entry) {
                Some(flag) => Some(if flag { 1i32 } else { 0i32 }),
                None => None,
            }
        } else {
            parse_i32(entry)
        };
        match key {
            Some(k) => {
                keys.push(k);
            },
            None => {
                return None;
            },
        }
        i += 1;
    }
    Some(keys)
}

/// Whether entry `i` comes before entry `j`.
fn goes_before(keys: &Vec<i32>, counts: &Vec<i32>, i: usize, j: usize) -> (r: bool)
    requires
        keys@.len() == counts@.len(),
        i < keys@.len(),
        j < keys@.len(),
    ensures
        r == precedes(ints(keys@), ints(counts@), i as int, j as int),
{
    if keys[i] != keys[j] {
        keys[i] < keys[j]
    } else if counts[i] != counts[j] {
        counts[i] > counts[j]
    } else {
        i < j
    }
}

/// The indices of the entries in sorted order, by insertion: each index in
/// turn is moved from the end of the list towards the front, past every entry
/// that it precedes.
fn insertion_order(keys: &Vec<i32>, counts: &Vec<i32>) -> (order: Vec<usize>)
    requires
        keys@.len() == counts@.len(),
    ensures
        is_sorted_order(ints(keys@), ints(counts@), order@),
{
    let n: usize = keys.len();
    let mut order: Vec<usize> = Vec::new();
    let mut i: usize = 0;
    while i < n
        invariant
            i <= n,
            n == keys@.len(),
            n == counts@.len(),
            order@.len() == i,
            forall|k: int| 0 <= k < i ==> #[trigger] order@[k] < i,
            forall|a: int, b: int| 0 <= a < b < i ==> #[trigger] order@[a] != #[trigger] order@[b],
            forall|a: int, b: int|
                0 <= a < b < i ==> precedes(
                    ints(keys@),
                    ints(counts@),
                    #[trigger] order@[a] as int,
                    #[trigger] order@[b] as int,
                ),
        decreases n - i,
    {
        let mut pos: usize = i;
        while pos > 0 && goes_before(keys, counts, i, order[pos - 1])
            invariant
                pos <= i < n,
                n == keys@.len(),
                n == counts@.len(),
                order@.len() == i,
                forall|k: int| 0 <= k < i ==> #[trigger] order@[k] < i,
                forall|k: int|
                    pos <= k < i ==> precedes(
                        ints(keys@),
                        ints(counts@),
                        i as int,
                        #[trigger] order@[k] as int,
                    ),
            decreases pos,
        {
            pos -= 1;
        }
        order.insert(pos, i);
        i += 1;
    }
    order
}

/// A copy of the texts of `column` in the order that `order` lists them.
fn gather_texts(column: &Vec<String>, order: &Vec<usize>) -> (r: Vec<String>)
    requires
        forall|k: int| 0 <= k < order@.len() ==> #[trigger] order@[k] < column@.len(),
    ensures
        texts(r@) == gather(texts(column@), order@),
{
    let n: usize = order.len();
    let mut out: Vec<String> = Vec::new();
    let mut k: usize = 0;
    while k < n
        invariant
            k <= n,
            n == order@.len(),
            out@.len() == k,
            forall|j: int| 0 <= j < order@.len() ==> #[trigger] order@[j] < column@.len(),
            forall|j: int| 0 <= j < k ==> out@[j]@ == column@[order@[j] as int]@,
        decreases n - k,
    {
        out.push(column[order[k]].clone());
        k += 1;
    }
    out
}

impl YTCreator {
    /// Orders the creators by the column `field`, whose entries are read as
    /// flags where `is_bool` holds and as counts where it does not. Gives the
    /// reordered record and the order as a list of indices: entry `k` of every
    /// new column is entry `order[k]` of the old one. `None` where the record
    /// cannot be ordered so.
    pub fn helper_sort(&self, field: &Vec<String>, is_bool: bool) -> (r: Option<
        (YTCreator, Vec<usize>),
    >)
        ensures
            r is Some <==> self@.sortable(texts(field@), is_bool),
            r matches Some((sorted, order)) ==> {
                &&& is_sorted_order(
                    sort_keys(texts(field@), is_bool),
                    sort_keys(self@.subscribers, false),
                    order@,
                )
                &&& order@ == self@.order_by(texts(field@), is_bool)
                &&& sorted@ == self@.reordered(order@)
            },
    {
        let n: usize = field.len();
        if self.names.len() != n || self.avatar_links.len() != n || self.descriptions.len() != n
            || self.is_live_status.len() != n || self.subscribers.len() != n {
            return None;
        }
        let keys: Vec<i32> = match read_keys(field, is_bool) {
            Some(keys) => keys,
            None => {
                return None;
            },
        };
        let counts: Vec<i32> = match read_keys(&self.subscribers, false) {
            Some(counts) => counts,
            None => {
                return None;
            },
        };
        assert(keys@.len() == ints(keys@).len());
        assert(counts@.len() == ints(counts@).len());
        let order: Vec<usize> = insertion_order(&keys, &counts);
        proof {
            lemma_sorted_order_unique(ints(keys@), ints(counts@), order@);
        }
        let sorted = YTCreator {
            names: gather_texts(&self.names, &order),
            avatar_links: gather_texts(&self.avatar_links, &order),
            descriptions: gather_texts(&self.descriptions, &order),
            is_live_status: gather_texts(&self.is_live_status, &order),
            subscribers: gather_texts(&self.subscribers, &order),
        };
        Some((sorted, order))
    }

    /// Whether the record can be ordered by the column that `field_name`
    /// chooses.
    pub fn can_sort_by(&self, field_name: AllowedFieldNamesForSorting) -> (r: bool)
        ensures
            r == self@.sortable_by_name(field_name),
    {
        let n: usize = self.names.len();
        if self.avatar_links.len() != n || self.descriptions.len() != n
            || self.is_live_status.len() != n || self.subscribers.len() != n {
            return false;
        }
        let keyed: bool = match field_name {
            AllowedFieldNamesForSorting::Subscribers => true,
            AllowedFieldNamesForSorting::IsLiveStatus => read_keys(
                &self.is_live_status,
                true,
            ).is_some(),
        };
        keyed && read_keys(&self.subscribers, false).is_some()
    }

    /// Orders the creators by the column that `field_name` chooses: by rising
    /// subscriber count, or with the creators that are not live first and,
    /// among those of one status, the one with more subscribers first. Gives
    /// the reordered record and the order as a list of indices; `None` where a
    /// column differs in length from the others, a subscriber count is no
    /// number, or, in the order by status, a status is no flag.
    pub fn sort_by(&self, field_name: AllowedFieldNamesForSorting) -> (r: Option<
        (YTCreator, Vec<usize>),
    >)
        ensures
            r is Some <==> self@.sortable_by_name(field_name),
            r matches Some((sorted, order)) ==> {
                &&& self@.in_order_by_name(field_name, order@)
                &&& order@ == self@.order_by_name(field_name)
                &&& sorted@ == self@.reordered(order@)
            },
    {
        match field_name {
            AllowedFieldNamesForSorting::Subscribers => self.helper_sort(&self.subscribers, false),
            AllowedFieldNamesForSorting::IsLiveStatus => self.helper_sort(
                &self.is_live_status,
                true,
            ),
        }
    }
}

} // verus!
