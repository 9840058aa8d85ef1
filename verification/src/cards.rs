//! Creator cards and their arrangement in rows of four.

use crate::creator::{CreatorColumns, YTCreator};
use crate::sorting::AllowedFieldNamesForSorting;
use vstd::prelude::*;
use vstd::string::StringExecFns;

verus! {

/// The number of cards in a full row.
pub const CARDS_PER_ROW: usize = 4;

/// What is shown of one creator.
#[derive(Debug)]
pub struct Card {
    pub name: String,
    pub avatar_link: String,
    pub description: String,
    pub is_live_status: String,
    pub subscribers: String,
}

/// The characters of the five texts of a card.
pub struct CardText {
    pub name: Seq<char>,
    pub avatar_link: Seq<char>,
    pub description: Seq<char>,
    pub is_live_status: Seq<char>,
    pub subscribers: Seq<char>,
}

/// The cards of one row.
#[derive(Debug)]
pub struct ListOfCards {
    pub cards: Vec<Card>,
}

/// The colour themes that can be chosen.
#[derive(Debug, PartialEq, Clone, Eq, Copy, Structural)]
pub enum ThemeType {
    Light,
    Dark,
    Custom,
}

/// What the controls of the window report.
#[derive(Debug)]
pub enum Message {
    ThemeChanged(ThemeType),
    SortOptionChanged(AllowedFieldNamesForSorting),
}

/// The places in which a line of text can stand.
#[derive(Debug)]
pub enum TextType {
    Header,
    Footer,
    Normal,
}

impl View for Card {
    type V = CardText;

    open spec fn view(&self) -> CardText {
        CardText {
            name: self.name@,
            avatar_link: self.avatar_link@,
            description: self.description@,
            is_live_status: self.is_live_status@,
            subscribers: self.subscribers@,
        }
    }
}

impl View for ListOfCards {
    type V = Seq<CardText>;

    open spec fn view(&self) -> Seq<CardText> {
        Seq::new(self.cards@.len(), |i: int| self.cards@[i]@)
    }
}

impl Clone for Message {
    fn clone(&self) -> (r: Message)
        ensures
            r == *self,
    {
        match self {
            Message::ThemeChanged(theme) => Message::ThemeChanged(*theme),
            Message::SortOptionChanged(option) => Message::SortOptionChanged(*option),
        }
    }
}

impl Default for Card {
    /// The card whose texts are all empty.
    fn default() -> (r: Card)
        ensures
            r@.name.len() == 0,
            r@.avatar_link.len() == 0,
            r@.description.len() == 0,
            r@.is_live_status.len() == 0,
            r@.subscribers.len() == 0,
    {
        Card {
            name: String::new(),
            avatar_link: String::new(),
            description: String::new(),
            is_live_status: String::new(),
            subscribers: String::new(),
        }
    }
}

impl Clone for Card {
    fn clone(&self) -> (r: Card)
        ensures
            r@ == self@,
    {
        Card {
            name: self.name.clone(),
            avatar_link: self.avatar_link.clone(),
            description: self.description.clone(),
            is_live_status: self.is_live_status.clone(),
            subscribers: self.subscribers.clone(),
        }
    }
}

impl Default for ListOfCards {
    /// The row without cards.
    fn default() -> (r: ListOfCards)
        ensures
            r@.len() == 0,
    {
        ListOfCards { cards: Vec::new() }
    }
}

impl Clone for ListOfCards {
    fn clone(&self) -> (r: ListOfCards)
        ensures
            r@ == self@,
    {
        let n: usize = self.cards.len();
        let mut cards: Vec<Card> = Vec::new();
        let mut i: usize = 0;
        while i < n
            invariant
                i <= n,
                n == self.cards@.len(),
                cards@.len() == i,
                forall|j: int| 0 <= j < i ==> cards@[j]@ == self.cards@[j]@,
            decreases n - i,
        {
            cards.push(self.cards[i].clone());
            i += 1;
        }
        let r = ListOfCards { cards };
        r
    }
}

/// The smaller of two numbers.
pub open spec fn least(a: nat, b: nat) -> nat {
    if a <= b {
        a
    } else {
        b
    }
}

/// The number of rows that `n` cards take: one for no card, else as many as
/// hold them four by four.
pub open spec fn row_count(n: nat) -> nat {
    if n == 0 {
        1
    } else {
        ((n + 3) / 4) as nat
    }
}

/// The number of cards in row `r` of `n` cards.
pub open spec fn row_len(n: nat, r: int) -> nat {
    if n - 4 * r >= 4 {
        4
    } else if n - 4 * r >= 0 {
        (n - 4 * r) as nat
    } else {
        0
    }
}

impl CreatorColumns {
    /// The number of creators of whom every column has an entry.
    pub open spec fn shortest(self) -> nat {
        least(
            self.names.len(),
            least(
                self.descriptions.len(),
                least(
                    self.is_live_status.len(),
                    least(self.subscribers.len(), self.avatar_links.len()),
                ),
            ),
        )
    }

    /// The card of creator `i`.
    pub open spec fn card(self, i: int) -> CardText {
        CardText {
            name: self.names[i],
            avatar_link: self.avatar_links[i],
            description: self.descriptions[i],
            is_live_status: self.is_live_status[i],
            subscribers: self.subscribers[i],
        }
    }

    /// The cards of row `r`: those of the creators `4 * r` and following, four
    /// at most.
    pub open spec fn card_row(self, r: int) -> Seq<CardText> {
        Seq::new(row_len(self.shortest(), r), |c: int| self.card(4 * r + c))
    }

    /// The cards of all creators, row by row.
    pub open spec fn card_rows(self) -> Seq<Seq<CardText>> {
        Seq::new(row_count(self.shortest()), |r: int| self.card_row(r))
    }
}

/// The cards of each of the rows `rows`.
pub open spec fn rows_view(rows: Seq<ListOfCards>) -> Seq<Seq<CardText>> {
    Seq::new(rows.len(), |r: int| rows[r]@)
}

/// The smaller of two lengths.
fn shorter(a: usize, b: usize) -> (r: usize)
    ensures
        r == least(a as nat, b as nat),
{
    if a <= b {
        a
    } else {
        b
    }
}

/// Makes one card for each creator of whom every column has an entry, and lays
/// the cards out in rows of four, in the order of the record. A record without
/// such a creator gives one empty row.
pub fn create_list_of_cards(obj: &YTCreator) -> (rows: Vec<ListOfCards>)
    ensures
        rows_view(rows@) == obj@.card_rows(),
{
    let n: usize = shorter(
        obj.names.len(),
        shorter(
            obj.descriptions.len(),
            shorter(
                obj.is_live_status.len(),
                shorter(obj.subscribers.len(), obj.avatar_links.len()),
            ),
        ),
    );
    let mut list_of_cards: Vec<ListOfCards> = Vec::new();
    let mut row: ListOfCards = ListOfCards::default();
    let mut count_so_far: usize = 0;
    while count_so_far < n
        invariant
            count_so_far <= n,
            n == obj@.shortest(),
            list_of_cards@.len() == (if count_so_far == 0 {
                0
            } else {
                (count_so_far - 1) / 4
            }),
            row.cards@.len() == count_so_far - 4 * list_of_cards@.len(),
            forall|r: int|
                0 <= r < list_of_cards@.len() ==> (#[trigger] list_of_cards@[r])@
                    == obj@.card_row(r),
            forall|c: int|
                0 <= c < row.cards@.len() ==> (#[trigger] row.cards@[c])@ == obj@.card(
                    4 * list_of_cards@.len() + c,
                ),
        decreases n - count_so_far,
    {
        let card = Card {
            name: obj.names[count_so_far].clone(),
            description: obj.descriptions[count_so_far].clone(),
            is_live_status: obj.is_live_status[count_so_far].clone(),
            subscribers: obj.subscribers[count_so_far].clone(),
            avatar_link: obj.avatar_links[count_so_far].clone(),
        };
        if count_so_far % CARDS_PER_ROW == 0 && count_so_far != 0 {
            list_of_cards.push(row);
            row = ListOfCards::default();
        }
        row.cards.push(card);
        count_so_far += 1;
    }
    assert(row@ =~= obj@.card_row(list_of_cards@.len() as int));
    list_of_cards.push(row);
    list_of_cards
}

/// The lines of text shown on a card: name, description, subscriber count and
/// live status, each under its heading.
pub open spec fn card_lines(card: CardText) -> Seq<char> {
    "Name: "@ + card.name + "\nDescription: "@ + card.description + "\nSubscriber Count: "@
        + card.subscribers + "\nIs Live?: "@ + card.is_live_status + "\n"@
}

/// The text of a card.
pub fn create_card(card: &Card) -> (r: String)
    ensures
        r@ == card_lines(card@),
{
    let mut container_text: String = String::from_str("Name: ");
    container_text.append(card.name.as_str());
    container_text.append("\nDescription: ");
    container_text.append(card.description.as_str());
    container_text.append("\nSubscriber Count: ");
    container_text.append(card.subscribers.as_str());
    container_text.append("\nIs Live?: ");
    container_text.append(card.is_live_status.as_str());
    container_text.append("\n");
    container_text
}

} // verus!
