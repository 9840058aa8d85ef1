//! The creators record: five parallel columns of text, one entry per creator.

use crate::text::str_eq;
use vstd::prelude::*;

verus! {

/// The largest number of creators that a record may hold.
pub const MAX_EXPECTED_ITEMS: usize = 12;

/// The characters of each text of a column.
pub open spec fn texts(column: Seq<String>) -> Seq<Seq<char>> {
    Seq::new(column.len(), |i: int| column[i]@)
}

/// The characters of each of some names.
pub open spec fn names_view(names: Seq<&'static str>) -> Seq<Seq<char>> {
    Seq::new(names.len(), |i: int| names[i]@)
}

/// The list of `name` alone where `listed` holds, the empty list where not.
pub open spec fn named_if(name: Seq<char>, listed: bool) -> Seq<Seq<char>> {
    if listed {
        seq![name]
    } else {
        Seq::empty()
    }
}

/// Creators kept column by column: entry `i` of every column belongs to
/// creator `i`.
#[derive(Debug, PartialEq, Eq)]
pub struct YTCreator {
    pub names: Vec<String>,
    pub avatar_links: Vec<String>,
    pub descriptions: Vec<String>,
    pub is_live_status: Vec<String>,
    pub subscribers: Vec<String>,
}

/// What a record holds: the characters of every entry of every column.
pub struct CreatorColumns {
    pub names: Seq<Seq<char>>,
    pub avatar_links: Seq<Seq<char>>,
    pub descriptions: Seq<Seq<char>>,
    pub is_live_status: Seq<Seq<char>>,
    pub subscribers: Seq<Seq<char>>,
}

/// Why a record has no size.
#[derive(Debug, Clone, Copy, PartialEq, Eq, Structural)]
pub enum SizeError {
    /// Some column holds more than `MAX_EXPECTED_ITEMS` entries.
    TooManyItems,
    /// No column is too long, but two columns differ in length.
    UnequalLengths,
}

impl CreatorColumns {
    /// Whether every column has `n` entries.
    pub open spec fn all_have_len(self, n: nat) -> bool {
        &&& self.names.len() == n
        &&& self.avatar_links.len() == n
        &&& self.descriptions.len() == n
        &&& self.is_live_status.len() == n
        &&& self.subscribers.len() == n
    }

    /// Whether every column has `n` entries or more.
    pub open spec fn all_reach(self, n: nat) -> bool {
        &&& self.names.len() >= n
        &&& self.avatar_links.len() >= n
        &&& self.descriptions.len() >= n
        &&& self.is_live_status.len() >= n
        &&& self.subscribers.len() >= n
    }

    /// Whether some column has more than `n` entries.
    pub open spec fn some_exceeds(self, n: nat) -> bool {
        ||| self.names.len() > n
        ||| self.avatar_links.len() > n
        ||| self.descriptions.len() > n
        ||| self.is_live_status.len() > n
        ||| self.subscribers.len() > n
    }

    /// Whether the columns are parallel: all of one length.
    pub open spec fn aligned(self) -> bool {
        self.all_have_len(self.names.len())
    }

    /// The column called `name`, if there is one.
    pub open spec fn field(self, name: Seq<char>) -> Option<Seq<Seq<char>>> {
        if name == "names"@ {
            Some(self.names)
        } else if name == "avatar_links"@ {
            Some(self.avatar_links)
        } else if name == "descriptions"@ {
            Some(self.descriptions)
        } else if name == "is_live_status"@ {
            Some(self.is_live_status)
        } else if name == "subscribers"@ {
            Some(self.subscribers)
        } else {
            None
        }
    }

    /// The record with the column called `name` replaced by `data`; the record
    /// itself where no column has that name.
    pub open spec fn with_field(self, name: Seq<char>, data: Seq<Seq<char>>) -> CreatorColumns {
        if name == "names"@ {
            CreatorColumns { names: data, ..self }
        } else if name == "avatar_links"@ {
            CreatorColumns { avatar_links: data, ..self }
        } else if name == "descriptions"@ {
            CreatorColumns { descriptions: data, ..self }
        } else if name == "is_live_status"@ {
            CreatorColumns { is_live_status: data, ..self }
        } else if name == "subscribers"@ {
            CreatorColumns { subscribers: data, ..self }
        } else {
            self
        }
    }

    /// The names of the columns that hold more than `n` entries, in the order
    /// in which the record declares them.
    pub open spec fn fields_over(self, n: nat) -> Seq<Seq<char>> {
        named_if("names"@, self.names.len() > n) + named_if(
            "avatar_links"@,
            self.avatar_links.len() > n,
        ) + named_if("descriptions"@, self.descriptions.len() > n) + named_if(
            "is_live_status"@,
            self.is_live_status.len() > n,
        ) + named_if("subscribers"@, self.subscribers.len() > n)
    }

    /// The first `n` entries of every column.
    pub open spec fn take(self, n: int) -> CreatorColumns {
        CreatorColumns {
            names: self.names.take(n),
            avatar_links: self.avatar_links.take(n),
            descriptions: self.descriptions.take(n),
            is_live_status: self.is_live_status.take(n),
            subscribers: self.subscribers.take(n),
        }
    }
}

impl View for YTCreator {
    type V = CreatorColumns;

    open spec fn view(&self) -> CreatorColumns {
        CreatorColumns {
            names: texts(self.names@),
            avatar_links: texts(self.avatar_links@),
            descriptions: texts(self.descriptions@),
            is_live_status: texts(self.is_live_status@),
            subscribers: texts(self.subscribers@),
        }
    }
}

/// A copy of the first `count` texts of a column.
pub(crate) fn copy_prefix(column: &Vec<String>, count: usize) -> (r: Vec<String>)
    requires
        count <= column.len(),
    ensures
        texts(r@) == texts(column@).take(count as int),
{
    let mut out: Vec<String> = Vec::new();
    let mut i: usize = 0;
    while i < count
        invariant
            i <= count <= column.len(),
            out.len() == i,
            forall|j: int| 0 <= j < i ==> out[j]@ == column[j]@,
        decreases count - i,
    {
        out.push(column[i].clone());
        i += 1;
    }
    out
}

impl Default for YTCreator {
    /// The record of no creators.
    fn default() -> (r: YTCreator)
        ensures
            r@.all_have_len(0),
    {
        YTCreator {
            names: Vec::new(),
            avatar_links: Vec::new(),
            descriptions: Vec::new(),
            is_live_status: Vec::new(),
            subscribers: Vec::new(),
        }
    }
}

impl Clone for YTCreator {
    fn clone(&self) -> (r: YTCreator)
        ensures
            r@ == self@,
    {
        let r = YTCreator {
            names: copy_prefix(&self.names, self.names.len()),
            avatar_links: copy_prefix(&self.avatar_links, self.avatar_links.len()),
            descriptions: copy_prefix(&self.descriptions, self.descriptions.len()),
            is_live_status: copy_prefix(&self.is_live_status, self.is_live_status.len()),
            subscribers: copy_prefix(&self.subscribers, self.subscribers.len()),
        };
        proof {
            assert(self@.names.take(self@.names.len() as int) =~= self@.names);
            assert(self@.avatar_links.take(self@.avatar_links.len() as int) =~= self@.avatar_links);
            assert(self@.descriptions.take(self@.descriptions.len() as int) =~= self@.descriptions);
            assert(self@.is_live_status.take(self@.is_live_status.len() as int)
                =~= self@.is_live_status);
            assert(self@.subscribers.take(self@.subscribers.len() as int) =~= self@.subscribers);
        }
        r
    }
}

impl YTCreator {
    /// The names of the columns, in the order in which the record declares
    /// them.
    pub fn field_names() -> (r: Vec<&'static str>)
        ensures
            r@.len() == 5,
            r[0]@ == "names"@,
            r[1]@ == "avatar_links"@,
            r[2]@ == "descriptions"@,
            r[3]@ == "is_live_status"@,
            r[4]@ == "subscribers"@,
    {
        let mut r: Vec<&'static str> = Vec::new();
        r.push("names");
        r.push("avatar_links");
        r.push("descriptions");
        r.push("is_live_status");
        r.push("subscribers");
        r
    }

    /// The column called `field_name`; `None` where no column has that name.
    pub fn get_field(&self, field_name: &str) -> (r: Option<&Vec<String>>)
        ensures
            r is Some <==> self@.field(field_name@) is Some,
            r matches Some(column) ==> Some(texts(column@)) == self@.field(field_name@),
            field_name@ == "names"@ ==> r == Some(&self.names),
            field_name@ == "avatar_links"@ ==> r == Some(&self.avatar_links),
            field_name@ == "descriptions"@ ==> r == Some(&self.descriptions),
            field_name@ == "is_live_status"@ ==> r == Some(&self.is_live_status),
            field_name@ == "subscribers"@ ==> r == Some(&self.subscribers),
    {
        proof {
            lemma_field_names_differ();
        }
        if str_eq(field_name, "names") {
            Some(&self.names)
        } else if str_eq(field_name, "avatar_links") {
            Some(&self.avatar_links)
        } else if str_eq(field_name, "descriptions") {
            Some(&self.descriptions)
        } else if str_eq(field_name, "is_live_status") {
            Some(&self.is_live_status)
        } else if str_eq(field_name, "subscribers") {
            Some(&self.subscribers)
        } else {
            None
        }
    }

    /// Replaces the column called `field_name` by `field_data`, and leaves the
    /// record as it is where no column has that name.
    pub fn set_field(&mut self, field_name: &str, field_data: Vec<String>) -> (r: &mut YTCreator)
        ensures
            r@ == old(self)@.with_field(field_name@, texts(field_data@)),
            *final(self) == *final(r),
    {
        if str_eq(field_name, "names") {
            self.names = field_data;
        } else if str_eq(field_name, "avatar_links") {
            self.avatar_links = field_data;
        } else if str_eq(field_name, "descriptions") {
            self.descriptions = field_data;
        } else if str_eq(field_name, "is_live_status") {
            self.is_live_status = field_data;
        } else if str_eq(field_name, "subscribers") {
            self.subscribers = field_data;
        }
        self
    }

    /// A record of the first `count_items` creators.
    pub fn slice_to(&self, count_items: usize) -> (r: YTCreator)
        requires
            self@.all_reach(count_items as nat),
        ensures
            r@ == self@.take(count_items as int),
    {
        YTCreator {
            names: copy_prefix(&self.names, count_items),
            avatar_links: copy_prefix(&self.avatar_links, count_items),
            descriptions: copy_prefix(&self.descriptions, count_items),
            is_live_status: copy_prefix(&self.is_live_status, count_items),
            subscribers: copy_prefix(&self.subscribers, count_items),
        }
    }

    /// The names of the columns that hold more than `MAX_EXPECTED_ITEMS`
    /// entries, in the order in which the record declares them.
    pub fn fields_over_limit(&self) -> (r: Vec<&'static str>)
        ensures
            names_view(r@) == self@.fields_over(MAX_EXPECTED_ITEMS as nat),
            r@.len() > 0 <==> self@.some_exceeds(MAX_EXPECTED_ITEMS as nat),
    {
        let mut r: Vec<&'static str> = Vec::new();
        if self.names.len() > MAX_EXPECTED_ITEMS {
            r.push("names");
        }
        if self.avatar_links.len() > MAX_EXPECTED_ITEMS {
            r.push("avatar_links");
        }
        if self.descriptions.len() > MAX_EXPECTED_ITEMS {
            r.push("descriptions");
        }
        if self.is_live_status.len() > MAX_EXPECTED_ITEMS {
            r.push("is_live_status");
        }
        if self.subscribers.len() > MAX_EXPECTED_ITEMS {
            r.push("subscribers");
        }
        r
    }

    /// Whether the record has a size: its columns are parallel and none holds
    /// more than `MAX_EXPECTED_ITEMS` entries.
    pub open spec fn sized(&self) -> bool {
        self@.aligned() && self@.names.len() <= MAX_EXPECTED_ITEMS
    }

    /// The number of creators, or why the record has none: a column that is too
    /// long counts before columns that differ in length.
    pub open spec fn size_or_error(&self) -> Result<usize, SizeError> {
        if self@.some_exceeds(MAX_EXPECTED_ITEMS as nat) {
            Err(SizeError::TooManyItems)
        } else if self@.aligned() {
            Ok(self@.names.len() as usize)
        } else {
            Err(SizeError::UnequalLengths)
        }
    }

    /// The number of creators, or why the record has none.
    pub fn check_size(&self) -> (r: Result<usize, SizeError>)
        ensures
            r == self.size_or_error(),
            r is Ok <==> self.sized(),
    {
        let n: usize = self.names.len();
        let a: usize = self.avatar_links.len();
        let d: usize = self.descriptions.len();
        let l: usize = self.is_live_status.len();
        let s: usize = self.subscribers.len();
        if n > MAX_EXPECTED_ITEMS || a > MAX_EXPECTED_ITEMS || d > MAX_EXPECTED_ITEMS || l
            > MAX_EXPECTED_ITEMS || s > MAX_EXPECTED_ITEMS {
            Err(SizeError::TooManyItems)
        } else if n == a && a == d && d == l && l == s {
            Ok(n)
        } else {
            Err(SizeError::UnequalLengths)
        }
    }

    /// The number of creators in a record that has a size.
    pub fn size(&self) -> (r: usize)
        requires
            self.sized(),
        ensures
            r == self@.names.len(),
            r <= MAX_EXPECTED_ITEMS,
            self@.all_have_len(r as nat),
    {
        self.names.len()
    }
}

/// No two columns share a name.
pub proof fn lemma_field_names_differ()
    ensures
        "names"@ != "avatar_links"@,
        "names"@ != "descriptions"@,
        "names"@ != "is_live_status"@,
        "names"@ != "subscribers"@,
        "avatar_links"@ != "descriptions"@,
        "avatar_links"@ != "is_live_status"@,
        "avatar_links"@ != "subscribers"@,
        "descriptions"@ != "is_live_status"@,
        "descriptions"@ != "subscribers"@,
        "is_live_status"@ != "subscribers"@,
{
    reveal_strlit("names");
    reveal_strlit("avatar_links");
    reveal_strlit("descriptions");
    reveal_strlit("is_live_status");
    reveal_strlit("subscribers");
    assert("avatar_links"@.len() == 12 && "avatar_links"@[0] == 'a');
    assert("descriptions"@.len() == 12 && "descriptions"@[0] == 'd');
    assert("is_live_status"@.len() == 14);
    assert("subscribers"@.len() == 11);
}

} // verus!
