//! What a row of the window shows: for each card its text, its avatar and the
//! colours that tell whether the creator is live.

use crate::avatars::clone_handle;
use crate::cards::{card_lines, create_card, ListOfCards, ThemeType};
use iced_native::image::Handle;
use vstd::prelude::*;

verus! {

/// The colours in which the text of a card can stand.
#[derive(Debug, Clone, Copy, PartialEq, Eq, Structural)]
pub enum TextColor {
    Black,
    White,
}

/// What can lie behind the text of a card.
#[derive(Debug, Clone, Copy, PartialEq, Eq, Structural)]
pub enum CardBackground {
    /// Nothing of the card's own.
    Unset,
    /// The dark ground that marks a live creator in the light theme.
    LiveOnLight,
    /// The light ground that marks a live creator in the dark theme.
    LiveOnDark,
    /// A ground that lets the window show through.
    Transparent,
}

/// The colours of a card.
#[derive(Debug, Clone, Copy, PartialEq, Eq, Structural)]
pub struct CardStyle {
    pub text_color: TextColor,
    pub background: CardBackground,
}

/// What the window shows of one creator.
#[derive(Debug)]
pub struct CardCell {
    pub text: String,
    pub photo: Handle,
    pub style: CardStyle,
}

/// The colours of a card in `theme` for a creator who is live or not: a live
/// creator stands out against the theme, in the light theme and in the dark
/// one; the custom theme shows all creators alike.
pub open spec fn style_of(theme: ThemeType, live: bool) -> CardStyle {
    match theme {
        ThemeType::Light => if live {
            CardStyle { text_color: TextColor::White, background: CardBackground::LiveOnLight }
        } else {
            CardStyle { text_color: TextColor::Black, background: CardBackground::Unset }
        },
        ThemeType::Dark => if live {
            CardStyle { text_color: TextColor::Black, background: CardBackground::LiveOnDark }
        } else {
            CardStyle { text_color: TextColor::White, background: CardBackground::Unset }
        },
        ThemeType::Custom => CardStyle {
            text_color: TextColor::Black,
            background: CardBackground::Transparent,
        },
    }
}

/// The colours of a card in `theme` for a creator who is live or not.
pub fn card_style(theme: ThemeType, live: bool) -> (r: CardStyle)
    ensures
        r == style_of(theme, live),
{
    let (text_color, background) = match live {
        true => match theme {
            ThemeType::Light => (TextColor::White, CardBackground::LiveOnLight),
            ThemeType::Dark => (TextColor::Black, CardBackground::LiveOnDark),
            ThemeType::Custom => (TextColor::Black, CardBackground::Transparent),
        },
        false => match theme {
            ThemeType::Light => (TextColor::Black, CardBackground::Unset),
            ThemeType::Dark => (TextColor::White, CardBackground::Unset),
            ThemeType::Custom => (TextColor::Black, CardBackground::Transparent),
        },
    };
    CardStyle { text_color, background }
}

/// Whether the avatars and live flags reach as far as the cards of a row that
/// starts at the creator `offset`.
pub open spec fn row_fits(cards: nat, offset: nat, photos: nat, flags: nat) -> bool {
    cards == 0 || (offset + cards <= photos && offset + cards <= flags)
}

/// What the window shows for the cards of one row. Card `idx` of the row
/// belongs to the creator `offset + idx`, whose avatar and live flag it takes
/// from `img_handles_row` and `status`.
pub fn create_row(
    cards: &ListOfCards,
    img_handles_row: &Vec<Handle>,
    offset: usize,
    theme: ThemeType,
    status: &Vec<bool>,
) -> (cells: Vec<CardCell>)
    requires
        row_fits(
            cards@.len(),
            offset as nat,
            img_handles_row@.len(),
            status@.len(),
        ),
    ensures
        cells@.len() == cards@.len(),
        forall|idx: int|
            0 <= idx < cards@.len() ==> {
                &&& (#[trigger] cells@[idx]).text@ == card_lines(cards@[idx])
                &&& cells@[idx].photo == img_handles_row@[offset + idx]
                &&& cells@[idx].style == style_of(theme, status@[offset + idx])
            },
{
    let n: usize = cards.cards.len();
    let photos: usize = img_handles_row.len();
    let mut cells: Vec<CardCell> = Vec::new();
    let mut idx: usize = 0;
    while idx < n
        invariant
            idx <= n,
            n == cards.cards@.len(),
            n == cards@.len(),
            photos == img_handles_row@.len(),
            row_fits(n as nat, offset as nat, photos as nat, status@.len()),
            cells@.len() == idx,
            forall|k: int|
                0 <= k < idx ==> {
                    &&& (#[trigger] cells@[k]).text@ == card_lines(cards@[k])
                    &&& cells@[k].photo == img_handles_row@[offset + k]
                    &&& cells@[k].style == style_of(theme, status@[offset + k])
                },
        decreases n - idx,
    {
        let cell = CardCell {
            text: create_card(&cards.cards[idx]),
            photo: clone_handle(&img_handles_row[offset + idx]),
            style: card_style(theme, status[offset + idx]),
        };
        cells.push(cell);
        idx += 1;
    }
    cells
}

} // verus!
