//! The state of the monitor window: the record of creators, the avatars and
//! live flags kept in step with it, and the choices of theme and order.

use crate::cards::{
    card_lines, create_list_of_cards, row_len, rows_view, ListOfCards, Message, ThemeType,
};
use crate::creator::YTCreator;
use crate::loading::{all_flags, live_flags, read_live_status};
use crate::permutation::{gather, rearrange_with_indices};
use crate::rows::{create_row, style_of, CardCell};
use crate::sorting::AllowedFieldNamesForSorting;
use iced_native::image::Handle;
use vstd::prelude::*;

verus! {

/// The number of rows of cards that the window shows.
pub const ROWS_SHOWN: usize = 3;

/// The monitor: entry `i` of `loaded_photos` and of `live_status` belongs to
/// creator `i` of `json_obj`.
#[derive(Debug)]
pub struct YTMonitor {
    pub theme: ThemeType,
    pub json_obj: YTCreator,
    pub loaded_photos: Vec<Handle>,
    pub live_status: Vec<bool>,
    pub sort_option: AllowedFieldNamesForSorting,
}

/// A copy of a list of indices.
fn copy_indices(indices: &Vec<usize>) -> (r: Vec<usize>)
    ensures
        r@ == indices@,
{
    let n: usize = indices.len();
    let mut out: Vec<usize> = Vec::new();
    let mut i: usize = 0;
    while i < n
        invariant
            i <= n,
            n == indices@.len(),
            out@.len() == i,
            forall|j: int| 0 <= j < i ==> out@[j] == indices@[j],
        decreases n - i,
    {
        out.push(indices[i]);
        i += 1;
    }
    out
}

impl Default for YTMonitor {
    /// The monitor of no creators, in the light theme.
    fn default() -> (r: YTMonitor)
        ensures
            r.theme == ThemeType::Light,
            r.json_obj@.all_have_len(0),
            r.loaded_photos@.len() == 0,
            r.live_status@.len() == 0,
            r.sort_option == AllowedFieldNamesForSorting::Subscribers,
    {
        YTMonitor {
            theme: ThemeType::Light,
            json_obj: YTCreator::default(),
            loaded_photos: Vec::new(),
            live_status: Vec::new(),
            sort_option: AllowedFieldNamesForSorting::Subscribers,
        }
    }
}

impl YTMonitor {
    /// Whether there is one avatar and one live flag for every creator.
    pub open spec fn in_step(&self) -> bool {
        &&& self.loaded_photos@.len() == self.json_obj@.names.len()
        &&& self.live_status@.len() == self.json_obj@.names.len()
    }

    /// Whether the monitor can be brought into the order of its own
    /// `sort_option`.
    pub open spec fn can_reorder(&self) -> bool {
        self.in_step() && self.json_obj@.sortable_by_name(self.sort_option)
    }

    /// Whether the monitor can take `message`: any change of theme, and a
    /// change of order that is no change or that the record allows.
    pub open spec fn takes(&self, message: Message) -> bool {
        match message {
            Message::ThemeChanged(_) => true,
            Message::SortOptionChanged(sort_option) => sort_option == self.sort_option || (
            self.in_step() && self.json_obj@.sortable_by_name(sort_option)),
        }
    }

    /// The monitor as the window opens: dark theme, order by subscribers.
    /// `sorted_json_obj` is the record in that order and `image_handles` the
    /// avatars of its creators; the live flags are read from the record.
    /// `None` where a live status spells no flag.
    pub fn new(sorted_json_obj: YTCreator, image_handles: Vec<Handle>) -> (r: Option<YTMonitor>)
        ensures
            r is Some <==> all_flags(sorted_json_obj@.is_live_status),
            r matches Some(monitor) ==> {
                &&& monitor.theme == ThemeType::Dark
                &&& monitor.json_obj == sorted_json_obj
                &&& monitor.loaded_photos == image_handles
                &&& monitor.live_status@ == live_flags(sorted_json_obj@.is_live_status)
                &&& monitor.sort_option == AllowedFieldNamesForSorting::Subscribers
            },
    {
        let statuses: Vec<bool> = match read_live_status(
            sorted_json_obj.get_field("is_live_status"),
        ) {
            Some(statuses) => statuses,
            None => {
                return None;
            },
        };
        Some(
            YTMonitor {
                theme: ThemeType::Dark,
                json_obj: sorted_json_obj,
                loaded_photos: image_handles,
                live_status: statuses,
                sort_option: AllowedFieldNamesForSorting::Subscribers,
            },
        )
    }

    /// Whether there is one avatar and one live flag for every creator.
    pub fn is_in_step(&self) -> (r: bool)
        ensures
            r == self.in_step(),
    {
        let n: usize = self.json_obj.names.len();
        self.loaded_photos.len() == n && self.live_status.len() == n
    }

    /// Whether the monitor can take `message`.
    pub fn accepts(&self, message: &Message) -> (r: bool)
        ensures
            r == self.takes(*message),
    {
        match message {
            Message::ThemeChanged(_) => true,
            Message::SortOptionChanged(sort_option) => {
                if *sort_option == self.sort_option {
                    true
                } else {
                    self.is_in_step() && self.json_obj.can_sort_by(*sort_option)
                }
            },
        }
    }

    /// Takes a message of the window: sets the theme, or sets the order and
    /// brings the creators, their avatars and their live flags into it.
    pub fn update(&mut self, message: Message)
        requires
            old(self).takes(message),
        ensures
            match message {
                Message::ThemeChanged(theme) => {
                    &&& final(self).theme == theme
                    &&& final(self).json_obj == old(self).json_obj
                    &&& final(self).loaded_photos == old(self).loaded_photos
                    &&& final(self).live_status == old(self).live_status
                    &&& final(self).sort_option == old(self).sort_option
                },
                Message::SortOptionChanged(sort_option) => {
                    &&& final(self).theme == old(self).theme
                    &&& final(self).sort_option == sort_option
                    &&& sort_option == old(self).sort_option ==> {
                        &&& final(self).json_obj == old(self).json_obj
                        &&& final(self).loaded_photos == old(self).loaded_photos
                        &&& final(self).live_status == old(self).live_status
                    }
                    &&& sort_option != old(self).sort_option ==> final(self).reordered_from(
                        *old(self),
                        sort_option,
                    )
                },
            },
    {
        match message {
            Message::ThemeChanged(theme) => {
                self.theme = theme;
            },
            Message::SortOptionChanged(sort_option) => {
                let old_option: AllowedFieldNamesForSorting = self.sort_option;
                self.sort_option = sort_option;
                update_json_obj(self, &old_option);
            },
        }
    }

    /// Whether `cells` shows row `r` of the window: one cell for each card of
    /// the row, with the card's text, and the avatar and the colours of its
    /// creator.
    pub open spec fn shows_row(&self, r: int, cells: Seq<CardCell>) -> bool {
        &&& cells.len() == row_len(self.json_obj@.shortest(), r)
        &&& forall|idx: int|
            0 <= idx < cells.len() ==> {
                &&& (#[trigger] cells[idx]).text@ == card_lines(self.json_obj@.card(4 * r + idx))
                &&& cells[idx].photo == self.loaded_photos@[4 * r + idx]
                &&& cells[idx].style == style_of(self.theme, self.live_status@[4 * r + idx])
            }
    }

    /// What the window shows: its rows of cards, the creators four to a row in
    /// the order of the record. A row beyond the last creator is empty.
    pub fn view_rows(&self) -> (rows: Vec<Vec<CardCell>>)
        requires
            self.in_step(),
        ensures
            rows@.len() == ROWS_SHOWN,
            forall|r: int| 0 <= r < ROWS_SHOWN ==> self.shows_row(r, (#[trigger] rows@[r])@),
    {
        let all_cards: Vec<ListOfCards> = create_list_of_cards(&self.json_obj);
        let binding: ListOfCards = ListOfCards::default();
        let mut rows: Vec<Vec<CardCell>> = Vec::new();
        let mut r: usize = 0;
        while r < ROWS_SHOWN
            invariant
                r <= ROWS_SHOWN,
                self.in_step(),
                binding@.len() == 0,
                rows_view(all_cards@) == self.json_obj@.card_rows(),
                rows@.len() == r,
                forall|k: int| 0 <= k < r ==> self.shows_row(k, (#[trigger] rows@[k])@),
            decreases ROWS_SHOWN - r,
        {
            let cards: &ListOfCards = if r < all_cards.len() {
                &all_cards[r]
            } else {
                &binding
            };
            proof {
                assert(rows_view(all_cards@).len() == all_cards@.len());
                if r < all_cards@.len() {
                    assert(rows_view(all_cards@)[r as int] == all_cards@[r as int]@);
                }
            }
            let cells: Vec<CardCell> = create_row(
                cards,
                &self.loaded_photos,
                4 * r,
                self.theme,
                &self.live_status,
            );
            rows.push(cells);
            r += 1;
        }
        rows
    }

    /// Whether `self` can be put into every order into which `before` can be
    /// put.
    pub open spec fn as_sortable_as(&self, before: YTMonitor) -> bool {
        forall|field_name: AllowedFieldNamesForSorting|
            #[trigger] before.json_obj@.sortable_by_name(field_name)
                ==> self.json_obj@.sortable_by_name(field_name)
    }

    /// Whether the creators, avatars and live flags of `self` are those of
    /// `before` in the order by `sort_option`.
    pub open spec fn reordered_from(
        &self,
        before: YTMonitor,
        sort_option: AllowedFieldNamesForSorting,
    ) -> bool {
        let order = before.json_obj@.order_by_name(sort_option);
        &&& before.json_obj@.in_order_by_name(sort_option, order)
        &&& self.json_obj@ == before.json_obj@.reordered(order)
        &&& self.live_status@ == gather(before.live_status@, order)
        &&& self.loaded_photos@ == gather(before.loaded_photos@, order)
        &&& self.in_step()
        &&& self.as_sortable_as(before)
    }
}

/// Brings the monitor into the order of its `sort_option`, unless that is the
/// option `old_option` in which it stands already: the creators are ordered,
/// and the avatars and live flags are moved along with them.
pub fn update_json_obj(obj: &mut YTMonitor, old_option: &AllowedFieldNamesForSorting)
    requires
        *old_option != old(obj).sort_option ==> old(obj).can_reorder(),
    ensures
        final(obj).theme == old(obj).theme,
        final(obj).sort_option == old(obj).sort_option,
        *old_option == old(obj).sort_option ==> {
            &&& final(obj).json_obj == old(obj).json_obj
            &&& final(obj).loaded_photos == old(obj).loaded_photos
            &&& final(obj).live_status == old(obj).live_status
        },
        *old_option != old(obj).sort_option ==> final(obj).reordered_from(
            *old(obj),
            old(obj).sort_option,
        ),
{
    if *old_option == obj.sort_option {
        return ;
    }
    match obj.json_obj.sort_by(obj.sort_option) {
        Some((sorted_json_obj, sorted_indices)) => {
            obj.json_obj = sorted_json_obj;
            rearrange_with_indices(&mut obj.live_status, copy_indices(&sorted_indices));
            rearrange_with_indices(&mut obj.loaded_photos, sorted_indices);
        },
        None => {},
    }
}

} // verus!
