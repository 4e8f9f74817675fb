//! What a page of sounds looks like, as plain values: the title, a grid of
//! sound buttons and four navigation buttons, each button with its token.

use vstd::prelude::*;
use vstd::string::*;
use crate::catalog::AudioTableRow;
use crate::codec::{
    encode_button, encode_menu_item, ButtonCustomId, ButtonCustomIdView, DisplayMenuItemCustomId,
    list_of, DisplayMenuItemView, DisplayType, ListKind, PageDirection, PaginateId, PaginateIdView,
};
use crate::paginator::AudioTablePaginator;
use crate::paging::{paginate_info_spec, PaginateInfo};
use crate::store::StoreError;
use crate::text::{decimal, push_decimal};

verus! {

/// The most characters a button label may hold.
pub const BTN_LABEL_MAX_LEN: usize = 80;

/// The most buttons in one row of a grid.
pub const BUTTONS_PER_ROW: usize = 5;

/// A label cut to the limit: one longer than 80 characters keeps its first 77
/// and ends in `...`.
pub open spec fn truncated_label(label: Seq<char>) -> Seq<char> {
    if label.len() > BTN_LABEL_MAX_LEN {
        label.subrange(0, (BTN_LABEL_MAX_LEN - 3) as int) + "..."@
    } else {
        label
    }
}

pub fn truncate_button_label(label: &str) -> (r: String)
    ensures
        r@ == truncated_label(label@),
{
    if label.unicode_len() > BTN_LABEL_MAX_LEN {
        let mut s = String::from_str(label.substring_char(0, BTN_LABEL_MAX_LEN - 3));
        s.append("...");
        s
    } else {
        String::from_str(label)
    }
}

pub open spec fn title_prefix(display_type: DisplayType, search: Seq<char>) -> Seq<char> {
    match display_type {
        DisplayType::All => "### All Sounds "@,
        DisplayType::MostPlayed => "### Most Played Sounds "@,
        DisplayType::RecentlyAdded => "### Recently Added Sounds "@,
        DisplayType::Pinned => "### Pinned Sounds "@,
        DisplayType::Search => "### Search Results `"@ + search + "` "@,
    }
}

/// The heading of a page, such as `### Pinned Sounds (page 2 of 3)...`.
pub open spec fn display_title(
    display_type: DisplayType,
    cur_page: u64,
    total_pages: u64,
    search: Seq<char>,
) -> Seq<char> {
    title_prefix(display_type, search) + "(page "@ + decimal(cur_page as nat) + " of "@ + decimal(
        total_pages as nat,
    ) + ")..."@
}

pub fn make_display_title(display_type: DisplayType, paginate_info: &PaginateInfo, search: &str) -> (r:
    String)
    ensures
        r@ == display_title(
            display_type,
            paginate_info.cur_page,
            paginate_info.total_pages,
            search@,
        ),
{
    let mut s = match display_type {
        DisplayType::All => String::from_str("### All Sounds "),
        DisplayType::MostPlayed => String::from_str("### Most Played Sounds "),
        DisplayType::RecentlyAdded => String::from_str("### Recently Added Sounds "),
        DisplayType::Pinned => String::from_str("### Pinned Sounds "),
        DisplayType::Search => {
            let mut t = String::from_str("### Search Results `");
            t.append(search);
            t.append("` ");
            t
        },
    };
    s.append("(page ");
    push_decimal(&mut s, paginate_info.cur_page);
    s.append(" of ");
    push_decimal(&mut s, paginate_info.total_pages);
    s.append(")...");
    s
}

/// Text that can label a button.
pub trait ButtonLabel {
    fn to_button_label(&self) -> String;
}

impl ButtonLabel for String {
    fn to_button_label(&self) -> String {
        truncate_button_label(self.as_str())
    }
}

impl ButtonLabel for &str {
    fn to_button_label(&self) -> String {
        truncate_button_label(*self)
    }
}

/// A button that plays a sound; pinned sounds are shown highlighted.
#[derive(Debug, Clone, PartialEq, Eq)]
pub struct SoundButton {
    pub custom_id: String,
    pub label: String,
    pub highlighted: bool,
}

pub fn make_sound_button(row: &AudioTableRow) -> (r: SoundButton)
    ensures
        r.custom_id@ == encode_button(ButtonCustomIdView::PlayAudio(row.id)),
        r.label@ == truncated_label(row.name@),
        r.highlighted == row.pinned,
{
    SoundButton {
        custom_id: ButtonCustomId::PlayAudio(row.id).encode(),
        label: truncate_button_label(row.name.as_str()),
        highlighted: row.pinned,
    }
}

/// A navigation button: where it leads, and whether it can be pressed.
#[derive(Debug, Clone, PartialEq, Eq)]
pub struct PageButton {
    pub direction: PageDirection,
    pub custom_id: String,
    pub disabled: bool,
}

pub open spec fn page_request(
    display_type: DisplayType,
    direction: PageDirection,
    offset: u64,
    search: Seq<char>,
) -> PaginateIdView {
    if display_type == DisplayType::Search {
        PaginateIdView::Search(direction, offset, search)
    } else {
        PaginateIdView::Listing(list_of(display_type), direction, offset)
    }
}

/// The offset a button leads to, and whether it is off: a missing offset
/// gives a disabled button carrying zero.
pub open spec fn target(offset: Option<u64>) -> (u64, bool) {
    match offset {
        Some(o) => (o, false),
        None => (0, true),
    }
}

pub open spec fn page_button_ok(
    b: PageButton,
    display_type: DisplayType,
    direction: PageDirection,
    offset: Option<u64>,
    search: Seq<char>,
) -> bool {
    &&& b.direction == direction
    &&& b.disabled == target(offset).1
    &&& b.custom_id@ == encode_button(
        ButtonCustomIdView::Paginate(page_request(display_type, direction, target(offset).0, search)),
    )
}

fn make_page_button(
    display_type: DisplayType,
    direction: PageDirection,
    offset: Option<u64>,
    search: &str,
) -> (r: PageButton)
    ensures
        page_button_ok(r, display_type, direction, offset, search@),
{
    let (at, disabled) = match offset {
        Some(o) => (o, false),
        None => (0, true),
    };
    let request = if display_type == DisplayType::Search {
        PaginateId::Search(direction, at, String::from_str(search))
    } else {
        PaginateId::Listing(ListKind::from_display(display_type), direction, at)
    };
    PageButton { direction, custom_id: ButtonCustomId::Paginate(request).encode(), disabled }
}

/// The four navigation buttons: first, previous, next, last.
pub fn make_paginate_controls(display_type: DisplayType, paginate_info: &PaginateInfo, search: &str) -> (r:
    Vec<PageButton>)
    ensures
        r.len() == 4,
        page_button_ok(
            r[0],
            display_type,
            PageDirection::First,
            paginate_info.first_page_offset,
            search@,
        ),
        page_button_ok(
            r[1],
            display_type,
            PageDirection::Prev,
            paginate_info.prev_page_offset,
            search@,
        ),
        page_button_ok(
            r[2],
            display_type,
            PageDirection::Next,
            paginate_info.next_page_offset,
            search@,
        ),
        page_button_ok(
            r[3],
            display_type,
            PageDirection::Last,
            paginate_info.last_page_offset,
            search@,
        ),
{
    let mut v: Vec<PageButton> = Vec::new();
    v.push(
        make_page_button(display_type, PageDirection::First, paginate_info.first_page_offset, search),
    );
    v.push(
        make_page_button(display_type, PageDirection::Prev, paginate_info.prev_page_offset, search),
    );
    v.push(
        make_page_button(display_type, PageDirection::Next, paginate_info.next_page_offset, search),
    );
    v.push(
        make_page_button(display_type, PageDirection::Last, paginate_info.last_page_offset, search),
    );
    v
}

pub open spec fn sound_button_ok(b: SoundButton, row: AudioTableRow) -> bool {
    &&& b.custom_id@ == encode_button(ButtonCustomIdView::PlayAudio(row.id))
    &&& b.label@ == truncated_label(row.name@)
    &&& b.highlighted == row.pinned
}

/// The grid of a page: rows of five buttons, the last one shorter, the
/// button at row `k`, place `j` for sound `5k + j`.
pub open spec fn grid_ok(g: Seq<Vec<SoundButton>>, rows: Seq<AudioTableRow>) -> bool {
    &&& g.len() == (rows.len() + 4) / 5
    &&& forall|k: int|
        0 <= k < g.len() ==> (#[trigger] g[k])@.len() == if rows.len() - 5 * k < 5 {
            rows.len() - 5 * k
        } else {
            5
        }
    &&& forall|k: int, j: int|
        0 <= k < g.len() && 0 <= j < g[k]@.len() ==> sound_button_ok(
            #[trigger] g[k]@[j],
            rows[5 * k + j],
        )
}

/// Sound buttons in rows of five, in order.
pub fn make_button_grid(rows: &Vec<AudioTableRow>) -> (r: Vec<Vec<SoundButton>>)
    ensures
        grid_ok(r@, rows@),
{
    let mut grid: Vec<Vec<SoundButton>> = Vec::new();
    let mut i: usize = 0;
    while i < rows.len()
        invariant
            i <= rows.len(),
            i < rows.len() ==> i == 5 * grid.len(),
            i == rows.len() ==> grid.len() == (rows.len() + 4) / 5,
            forall|k: int|
                0 <= k < grid.len() ==> (#[trigger] grid@[k])@.len() == if rows.len() - 5 * k < 5 {
                    rows.len() - 5 * k
                } else {
                    5
                },
            forall|k: int, j: int|
                0 <= k < grid.len() && 0 <= j < grid@[k]@.len() ==> sound_button_ok(
                    #[trigger] grid@[k]@[j],
                    rows@[5 * k + j],
                ),
        decreases rows.len() - i,
    {
        let mut line: Vec<SoundButton> = Vec::new();
        let start = i;
        while i < rows.len() && line.len() < BUTTONS_PER_ROW
            invariant
                start == 5 * grid.len(),
                start < rows.len(),
                start <= i <= rows.len(),
                line.len() == i - start,
                line.len() <= BUTTONS_PER_ROW,
                forall|j: int| 0 <= j < line.len() ==> sound_button_ok(#[trigger] line@[j], rows@[start + j]),
            decreases rows.len() - i,
        {
            line.push(make_sound_button(&rows[i]));
            i += 1;
        }
        let ghost old_grid = grid@;
        grid.push(line);
        proof {
            assert forall|k: int, j: int|
                0 <= k < grid.len() && 0 <= j < grid@[k]@.len() implies sound_button_ok(
                #[trigger] grid@[k]@[j],
                rows@[5 * k + j],
            ) by {
                if k < old_grid.len() {
                    assert(grid@[k] == old_grid[k]);
                }
            }
        }
    }
    grid
}

/// An entry of the list menu.
#[derive(Debug, Clone, PartialEq, Eq)]
pub struct MenuOption {
    pub label: String,
    pub value: String,
    pub selected: bool,
}

/// A plain control button.
#[derive(Debug, Clone, PartialEq, Eq)]
pub struct ControlButton {
    pub label: String,
    pub custom_id: String,
}

/// The control panel: the list menu and the search and random-play buttons.
#[derive(Debug, Clone, PartialEq, Eq)]
pub struct SoundbotControls {
    pub menu_custom_id: String,
    pub menu_placeholder: String,
    pub options: Vec<MenuOption>,
    pub buttons: Vec<ControlButton>,
}

pub open spec fn menu_entry_ok(o: MenuOption, kind: DisplayType, selected: Option<DisplayType>) -> bool {
    &&& o.value@ == encode_menu_item(display_menu_item(kind))
    &&& o.selected == (selected == Some(kind))
}

pub open spec fn display_menu_item(kind: DisplayType) -> DisplayMenuItemView {
    match kind {
        DisplayType::All => DisplayMenuItemView::DisplayAll,
        DisplayType::Pinned => DisplayMenuItemView::DisplayPinned,
        DisplayType::MostPlayed => DisplayMenuItemView::DisplayMostPlayed,
        DisplayType::RecentlyAdded => DisplayMenuItemView::DisplayRecentlyAdded,
        DisplayType::Search => DisplayMenuItemView::Unknown(Seq::empty()),
    }
}

fn menu_option(label: &str, kind: DisplayType, selected: Option<DisplayType>) -> (r: MenuOption)
    requires
        kind != DisplayType::Search,
    ensures
        menu_entry_ok(r, kind, selected),
        r.label@ == label@,
{
    let is_selected = match selected {
        Some(k) => k == kind,
        None => false,
    };
    MenuOption {
        label: String::from_str(label),
        value: kind.menu_item().encode(),
        selected: is_selected,
    }
}

/// The control panel, with `selected` marked in the menu.
pub fn make_soundbot_controls(selected: Option<DisplayType>) -> (r: SoundbotControls)
    ensures
        r.menu_custom_id@ == "sound_bot_display_menu"@,
        r.options.len() == 4,
        menu_entry_ok(r.options[0], DisplayType::All, selected),
        menu_entry_ok(r.options[1], DisplayType::Pinned, selected),
        menu_entry_ok(r.options[2], DisplayType::RecentlyAdded, selected),
        menu_entry_ok(r.options[3], DisplayType::MostPlayed, selected),
        r.buttons.len() == 2,
        r.buttons[0].custom_id@ == encode_button(ButtonCustomIdView::Search),
        r.buttons[1].custom_id@ == encode_button(ButtonCustomIdView::PlayRandom),
{
    let mut options: Vec<MenuOption> = Vec::new();
    options.push(menu_option("All Sounds", DisplayType::All, selected));
    options.push(menu_option("Pinned Sounds", DisplayType::Pinned, selected));
    options.push(menu_option("Recently Added Sounds", DisplayType::RecentlyAdded, selected));
    options.push(menu_option("Most Played Sounds", DisplayType::MostPlayed, selected));
    let mut buttons: Vec<ControlButton> = Vec::new();
    buttons.push(
        ControlButton {
            label: String::from_str("Search"),
            custom_id: ButtonCustomId::Search.encode(),
        },
    );
    buttons.push(
        ControlButton {
            label: String::from_str("Play Random"),
            custom_id: ButtonCustomId::PlayRandom.encode(),
        },
    );
    SoundbotControls {
        menu_custom_id: String::from_str(DisplayMenuItemCustomId::CUSTOM_ID),
        menu_placeholder: String::from_str("Display Sounds"),
        options,
        buttons,
    }
}

/// A page of sounds ready to show.
#[derive(Debug, Clone, PartialEq, Eq)]
pub struct SoundDisplayMessage {
    pub content: String,
    pub sound_rows: Vec<Vec<SoundButton>>,
    pub controls: Vec<PageButton>,
}

/// Builds the page the paginator stands on: its title, the grid of its
/// sounds and the navigation that leads away from it. The paginator moves
/// past the page.
pub fn make_display_message(
    paginator: &mut AudioTablePaginator,
    display_type: DisplayType,
    search: &str,
) -> (r: Result<SoundDisplayMessage, StoreError>)
    ensures
        old(paginator).page_limit == 0 ==> r is Err,
        r matches Ok(m) ==> exists|page: Seq<AudioTableRow>|
            #[trigger] grid_ok(m.sound_rows@, page) && page.len() == final(paginator).offset - old(
                paginator,
            ).offset,
        r is Ok ==> final(paginator).offset >= old(paginator).offset,
        r matches Ok(m) ==> exists|info: PaginateInfo|
            {
                &&& info == paginate_info_spec(
                    info.total_row_count,
                    old(paginator).offset,
                    old(paginator).page_limit,
                )
                &&& m.content@ == display_title(
                    display_type,
                    info.cur_page,
                    info.total_pages,
                    search@,
                )
                &&& m.controls.len() == 4
                &&& page_button_ok(
                    m.controls[0],
                    display_type,
                    PageDirection::First,
                    info.first_page_offset,
                    search@,
                )
                &&& page_button_ok(
                    m.controls[1],
                    display_type,
                    PageDirection::Prev,
                    info.prev_page_offset,
                    search@,
                )
                &&& page_button_ok(
                    m.controls[2],
                    display_type,
                    PageDirection::Next,
                    info.next_page_offset,
                    search@,
                )
                &&& page_button_ok(
                    m.controls[3],
                    display_type,
                    PageDirection::Last,
                    info.last_page_offset,
                    search@,
                )
            },
{
    let info = match paginator.pageinate_info() {
        Ok(i) => i,
        Err(e) => return Err(e),
    };
    let title = make_display_title(display_type, &info, search);
    let rows = match paginator.next_page() {
        Ok(rows) => rows,
        Err(e) => return Err(e),
    };
    let grid = make_button_grid(&rows);
    assert(grid_ok(grid@, rows@));
    let controls = make_paginate_controls(display_type, &info, search);
    let m = SoundDisplayMessage { content: title, sound_rows: grid, controls };
    assert(m.controls.len() == 4);
    assert(grid_ok(m.sound_rows@, rows@));
    assert(paginator.offset == old(paginator).offset + rows@.len());
    let r: Result<SoundDisplayMessage, StoreError> = Ok(m);
    assert(r matches Ok(m2) ==> exists|page: Seq<AudioTableRow>|
        #[trigger] grid_ok(m2.sound_rows@, page) && page.len() == paginator.offset - old(paginator).offset) by {
        assert(grid_ok(r->Ok_0.sound_rows@, rows@));
    }
    r
}

} // verus!
