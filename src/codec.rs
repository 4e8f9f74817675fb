//! The opaque identifiers carried by buttons and menu items.
//!
//! A clicked element hands back only its identifier, so each one holds the
//! whole action: which list, which page direction, the row offset and, for a
//! search, the search text. Parts are joined with `::`; the search text comes
//! last and is kept verbatim, `::` included.

use vstd::prelude::*;
use vstd::string::*;
use crate::text::{
    decimal, head, lemma_decimal, lemma_split_joined, lemma_split_plain, no_colon,
    parse_i64, parse_i64_spec, parse_u64, parse_u64_spec, push_decimal, push_signed_decimal, sep,
    signed_decimal, split_token, str_eq, tail,
};

verus! {

/// The lists of sounds that can be shown.
#[derive(Debug, Clone, Copy, PartialEq, Eq, Structural)]
pub enum DisplayType {
    All,
    RecentlyAdded,
    MostPlayed,
    Pinned,
    Search,
}

/// Which page a pagination button leads to.
#[derive(Debug, Clone, Copy, PartialEq, Eq, Structural)]
pub enum PageDirection {
    First,
    Prev,
    Next,
    Last,
}

/// The lists other than search results.
#[derive(Debug, Clone, Copy, PartialEq, Eq, Structural)]
pub enum ListKind {
    All,
    RecentlyAdded,
    MostPlayed,
    Pinned,
}

pub open spec fn list_display(l: ListKind) -> DisplayType {
    match l {
        ListKind::All => DisplayType::All,
        ListKind::RecentlyAdded => DisplayType::RecentlyAdded,
        ListKind::MostPlayed => DisplayType::MostPlayed,
        ListKind::Pinned => DisplayType::Pinned,
    }
}

/// The list a display type names; search results, which are no list, map to
/// `All`.
pub open spec fn list_of(k: DisplayType) -> ListKind {
    match k {
        DisplayType::RecentlyAdded => ListKind::RecentlyAdded,
        DisplayType::MostPlayed => ListKind::MostPlayed,
        DisplayType::Pinned => ListKind::Pinned,
        _ => ListKind::All,
    }
}

impl ListKind {
    pub fn display_type(&self) -> (r: DisplayType)
        ensures
            r == list_display(*self),
    {
        match self {
            ListKind::All => DisplayType::All,
            ListKind::RecentlyAdded => DisplayType::RecentlyAdded,
            ListKind::MostPlayed => DisplayType::MostPlayed,
            ListKind::Pinned => DisplayType::Pinned,
        }
    }

    pub fn from_display(k: DisplayType) -> (r: ListKind)
        ensures
            r == list_of(k),
    {
        match k {
            DisplayType::RecentlyAdded => ListKind::RecentlyAdded,
            DisplayType::MostPlayed => ListKind::MostPlayed,
            DisplayType::Pinned => ListKind::Pinned,
            _ => ListKind::All,
        }
    }
}

/// A pagination request: a list, a direction and the offset to show.
#[derive(Debug, Clone, PartialEq, Eq)]
pub enum PaginateId {
    /// A list other than search results.
    Listing(ListKind, PageDirection, u64),
    /// Search results for the text.
    Search(PageDirection, u64, String),
    /// A token that names no known page verb, kept whole.
    Unknown(String),
}

pub ghost enum PaginateIdView {
    Listing(ListKind, PageDirection, u64),
    Search(PageDirection, u64, Seq<char>),
    Unknown(Seq<char>),
}

impl View for PaginateId {
    type V = PaginateIdView;

    open spec fn view(&self) -> PaginateIdView {
        match self {
            PaginateId::Listing(k, d, n) => PaginateIdView::Listing(*k, *d, *n),
            PaginateId::Search(d, n, s) => PaginateIdView::Search(*d, *n, s@),
            PaginateId::Unknown(v) => PaginateIdView::Unknown(v@),
        }
    }
}

/// The identifier of a button.
#[derive(Debug, Clone, PartialEq, Eq)]
pub enum ButtonCustomId {
    PlayAudio(i64),
    PlayRandom,
    Search,
    Paginate(PaginateId),
    AddMp3File,
    IgnoreMp3File,
    /// A token that names no known button, kept whole.
    Unknown(String),
}

pub ghost enum ButtonCustomIdView {
    PlayAudio(i64),
    PlayRandom,
    Search,
    Paginate(PaginateIdView),
    AddMp3File,
    IgnoreMp3File,
    Unknown(Seq<char>),
}

impl View for ButtonCustomId {
    type V = ButtonCustomIdView;

    open spec fn view(&self) -> ButtonCustomIdView {
        match self {
            ButtonCustomId::PlayAudio(i) => ButtonCustomIdView::PlayAudio(*i),
            ButtonCustomId::PlayRandom => ButtonCustomIdView::PlayRandom,
            ButtonCustomId::Search => ButtonCustomIdView::Search,
            ButtonCustomId::Paginate(p) => ButtonCustomIdView::Paginate(p@),
            ButtonCustomId::AddMp3File => ButtonCustomIdView::AddMp3File,
            ButtonCustomId::IgnoreMp3File => ButtonCustomIdView::IgnoreMp3File,
            ButtonCustomId::Unknown(v) => ButtonCustomIdView::Unknown(v@),
        }
    }
}

/// The identifier of an entry of the list menu.
#[derive(Debug, Clone, PartialEq, Eq)]
pub enum DisplayMenuItemCustomId {
    DisplayAll,
    DisplayPinned,
    DisplayMostPlayed,
    DisplayRecentlyAdded,
    /// A value that names no entry, kept whole.
    Unknown(String),
}

pub ghost enum DisplayMenuItemView {
    DisplayAll,
    DisplayPinned,
    DisplayMostPlayed,
    DisplayRecentlyAdded,
    Unknown(Seq<char>),
}

impl View for DisplayMenuItemCustomId {
    type V = DisplayMenuItemView;

    open spec fn view(&self) -> DisplayMenuItemView {
        match self {
            DisplayMenuItemCustomId::DisplayAll => DisplayMenuItemView::DisplayAll,
            DisplayMenuItemCustomId::DisplayPinned => DisplayMenuItemView::DisplayPinned,
            DisplayMenuItemCustomId::DisplayMostPlayed => DisplayMenuItemView::DisplayMostPlayed,
            DisplayMenuItemCustomId::DisplayRecentlyAdded => DisplayMenuItemView::DisplayRecentlyAdded,
            DisplayMenuItemCustomId::Unknown(v) => DisplayMenuItemView::Unknown(v@),
        }
    }
}

// ---------------------------------------------------------------------------
// The words of the protocol
pub open spec fn kind_word(k: DisplayType) -> Seq<char> {
    match k {
        DisplayType::All => "all"@,
        DisplayType::RecentlyAdded => "recently_added"@,
        DisplayType::MostPlayed => "most_played"@,
        DisplayType::Pinned => "pinned"@,
        DisplayType::Search => "search"@,
    }
}

pub open spec fn dir_word(d: PageDirection) -> Seq<char> {
    match d {
        PageDirection::First => "first"@,
        PageDirection::Prev => "prev"@,
        PageDirection::Next => "next"@,
        PageDirection::Last => "last"@,
    }
}

/// The verb of a page request, such as `most_played_next_page`.
pub open spec fn verb(k: DisplayType, d: PageDirection) -> Seq<char> {
    kind_word(k) + "_"@ + dir_word(d) + "_page"@
}

pub open spec fn is_verb(h: Seq<char>) -> bool {
    exists|k: DisplayType, d: PageDirection| h == verb(k, d)
}

pub open spec fn tail_or_empty(t: Seq<char>) -> Seq<char> {
    match tail(t) {
        Some(r) => r,
        None => Seq::empty(),
    }
}

pub open spec fn encode_paginate(p: PaginateIdView) -> Seq<char> {
    match p {
        PaginateIdView::Listing(l, d, n) => verb(list_display(l), d) + sep() + decimal(n as nat),
        PaginateIdView::Search(d, n, s) => verb(DisplayType::Search, d) + sep() + decimal(n as nat)
            + sep() + s,
        PaginateIdView::Unknown(v) => v,
    }
}

/// The request a token names; `None` where a known verb has no valid offset.
pub open spec fn decode_paginate(t: Seq<char>) -> Option<PaginateIdView> {
    let h = head(t);
    if is_verb(h) {
        let (k, d) = choose|k: DisplayType, d: PageDirection| h == verb(k, d);
        let rest = tail_or_empty(t);
        match parse_u64_spec(head(rest)) {
            None => None,
            Some(n) => if k == DisplayType::Search {
                Some(PaginateIdView::Search(d, n, tail_or_empty(rest)))
            } else {
                Some(PaginateIdView::Listing(list_of(k), d, n))
            },
        }
    } else {
        Some(PaginateIdView::Unknown(t))
    }
}

/// The requests that can be built: an unknown token does not start with a
/// page verb.
pub open spec fn wf_paginate(p: PaginateIdView) -> bool {
    match p {
        PaginateIdView::Listing(_, _, _) => true,
        PaginateIdView::Search(_, _, _) => true,
        PaginateIdView::Unknown(v) => !is_verb(head(v)),
    }
}

pub open spec fn play_word() -> Seq<char> {
    "sound_bot_play"@
}

pub open spec fn play_random_word() -> Seq<char> {
    "sound_bot_play_random"@
}

pub open spec fn search_word() -> Seq<char> {
    "sound_bot_search"@
}

pub open spec fn paginate_word() -> Seq<char> {
    "sound_bot_paginate"@
}

pub open spec fn add_mp3_word() -> Seq<char> {
    "soundbot_add_mp3_file"@
}

pub open spec fn ignore_mp3_word() -> Seq<char> {
    "soundbot_ignore_mp3_file"@
}

pub open spec fn is_button_word(h: Seq<char>) -> bool {
    h == play_word() || h == play_random_word() || h == search_word() || h == paginate_word()
        || h == add_mp3_word() || h == ignore_mp3_word()
}

pub open spec fn encode_button(b: ButtonCustomIdView) -> Seq<char> {
    match b {
        ButtonCustomIdView::PlayAudio(i) => play_word() + sep() + signed_decimal(i as int),
        ButtonCustomIdView::PlayRandom => play_random_word(),
        ButtonCustomIdView::Search => search_word(),
        ButtonCustomIdView::Paginate(p) => paginate_word() + sep() + encode_paginate(p),
        ButtonCustomIdView::AddMp3File => add_mp3_word(),
        ButtonCustomIdView::IgnoreMp3File => ignore_mp3_word(),
        ButtonCustomIdView::Unknown(v) => v,
    }
}

/// The button a token names; `None` where a known button has a malformed
/// argument.
pub open spec fn decode_button(t: Seq<char>) -> Option<ButtonCustomIdView> {
    let h = head(t);
    let rest = tail_or_empty(t);
    if h == play_word() {
        match parse_i64_spec(head(rest)) {
            Some(i) => Some(ButtonCustomIdView::PlayAudio(i)),
            None => None,
        }
    } else if h == play_random_word() {
        Some(ButtonCustomIdView::PlayRandom)
    } else if h == search_word() {
        Some(ButtonCustomIdView::Search)
    } else if h == paginate_word() {
        match decode_paginate(rest) {
            Some(p) => Some(ButtonCustomIdView::Paginate(p)),
            None => None,
        }
    } else if h == add_mp3_word() {
        Some(ButtonCustomIdView::AddMp3File)
    } else if h == ignore_mp3_word() {
        Some(ButtonCustomIdView::IgnoreMp3File)
    } else {
        Some(ButtonCustomIdView::Unknown(t))
    }
}

pub open spec fn wf_button(b: ButtonCustomIdView) -> bool {
    match b {
        ButtonCustomIdView::Paginate(p) => wf_paginate(p),
        ButtonCustomIdView::Unknown(v) => !is_button_word(head(v)),
        _ => true,
    }
}

pub open spec fn menu_all_word() -> Seq<char> {
    "sound_bot_display_menu_item_all"@
}

pub open spec fn menu_pinned_word() -> Seq<char> {
    "sound_bot_display_menu_item_pinned"@
}

pub open spec fn menu_most_played_word() -> Seq<char> {
    "sound_bot_display_menu_item_most_played"@
}

pub open spec fn menu_recently_added_word() -> Seq<char> {
    "sound_bot_display_menu_item_recently_added"@
}

pub open spec fn is_menu_word(v: Seq<char>) -> bool {
    v == menu_all_word() || v == menu_pinned_word() || v == menu_most_played_word() || v
        == menu_recently_added_word()
}

pub open spec fn encode_menu_item(m: DisplayMenuItemView) -> Seq<char> {
    match m {
        DisplayMenuItemView::DisplayAll => menu_all_word(),
        DisplayMenuItemView::DisplayPinned => menu_pinned_word(),
        DisplayMenuItemView::DisplayMostPlayed => menu_most_played_word(),
        DisplayMenuItemView::DisplayRecentlyAdded => menu_recently_added_word(),
        DisplayMenuItemView::Unknown(v) => v,
    }
}

pub open spec fn decode_menu_item(v: Seq<char>) -> DisplayMenuItemView {
    if v == menu_all_word() {
        DisplayMenuItemView::DisplayAll
    } else if v == menu_pinned_word() {
        DisplayMenuItemView::DisplayPinned
    } else if v == menu_most_played_word() {
        DisplayMenuItemView::DisplayMostPlayed
    } else if v == menu_recently_added_word() {
        DisplayMenuItemView::DisplayRecentlyAdded
    } else {
        DisplayMenuItemView::Unknown(v)
    }
}

pub open spec fn wf_menu_item(m: DisplayMenuItemView) -> bool {
    match m {
        DisplayMenuItemView::Unknown(v) => !is_menu_word(v),
        _ => true,
    }
}

// ---------------------------------------------------------------------------
// Facts about the words
proof fn lemma_words()
    ensures
        forall|k: DisplayType| #[trigger] kind_word(k).len() > 0 && no_colon(kind_word(k)),
        forall|d: PageDirection| #[trigger] dir_word(d).len() > 0 && no_colon(dir_word(d)),
        no_colon("_"@),
        no_colon("_page"@),
        "::"@ == sep(),
        ""@ == Seq::<char>::empty(),
{
    reveal_strlit("all");
    reveal_strlit("recently_added");
    reveal_strlit("most_played");
    reveal_strlit("pinned");
    reveal_strlit("search");
    reveal_strlit("first");
    reveal_strlit("prev");
    reveal_strlit("next");
    reveal_strlit("last");
    reveal_strlit("_");
    reveal_strlit("_page");
    reveal_strlit("::");
    reveal_strlit("");
    assert("::"@ =~= sep());
    assert(""@ =~= Seq::<char>::empty());
}

proof fn lemma_no_colon_concat(a: Seq<char>, b: Seq<char>)
    requires
        no_colon(a),
        no_colon(b),
    ensures
        no_colon(a + b),
{
    assert forall|i: int| 0 <= i < (a + b).len() implies #[trigger] (a + b)[i] != ':' by {
        if i < a.len() {
            assert((a + b)[i] == a[i]);
        } else {
            assert((a + b)[i] == b[i - a.len()]);
        }
    }
}

proof fn lemma_verb_no_colon(k: DisplayType, d: PageDirection)
    ensures
        no_colon(verb(k, d)),
{
    lemma_words();
    lemma_no_colon_concat(kind_word(k), "_"@);
    lemma_no_colon_concat(kind_word(k) + "_"@, dir_word(d));
    lemma_no_colon_concat(kind_word(k) + "_"@ + dir_word(d), "_page"@);
}

/// Different requests have different verbs.
proof fn lemma_verb_injective(k1: DisplayType, d1: PageDirection, k2: DisplayType, d2: PageDirection)
    requires
        verb(k1, d1) == verb(k2, d2),
    ensures
        k1 == k2,
        d1 == d2,
{
    lemma_words();
    reveal_strlit("all");
    reveal_strlit("recently_added");
    reveal_strlit("most_played");
    reveal_strlit("pinned");
    reveal_strlit("search");
    reveal_strlit("first");
    reveal_strlit("prev");
    reveal_strlit("next");
    reveal_strlit("last");
    reveal_strlit("_");
    let v1 = verb(k1, d1);
    let v2 = verb(k2, d2);
    assert(v1[0] == kind_word(k1)[0]);
    assert(v2[0] == kind_word(k2)[0]);
    assert(k1 == k2);
    let at = kind_word(k1).len() + 1;
    assert(v1[at as int] == dir_word(d1)[0]);
    assert(v2[at as int] == dir_word(d2)[0]);
}

proof fn lemma_decode_verb(h: Seq<char>, k: DisplayType, d: PageDirection)
    requires
        h == verb(k, d),
    ensures
        is_verb(h),
        (choose|k2: DisplayType, d2: PageDirection| h == verb(k2, d2)) == (k, d),
{
    let (k2, d2) = choose|k2: DisplayType, d2: PageDirection| h == verb(k2, d2);
    lemma_verb_injective(k, d, k2, d2);
}

proof fn lemma_button_words()
    ensures
        no_colon(play_word()),
        no_colon(play_random_word()),
        no_colon(search_word()),
        no_colon(paginate_word()),
        no_colon(add_mp3_word()),
        no_colon(ignore_mp3_word()),
        play_word() != play_random_word(),
        play_word() != search_word(),
        play_word() != paginate_word(),
        play_word() != add_mp3_word(),
        play_word() != ignore_mp3_word(),
        play_random_word() != search_word(),
        play_random_word() != paginate_word(),
        play_random_word() != add_mp3_word(),
        play_random_word() != ignore_mp3_word(),
        search_word() != paginate_word(),
        search_word() != add_mp3_word(),
        search_word() != ignore_mp3_word(),
        paginate_word() != add_mp3_word(),
        paginate_word() != ignore_mp3_word(),
        add_mp3_word() != ignore_mp3_word(),
{
    reveal_strlit("sound_bot_play");
    reveal_strlit("sound_bot_play_random");
    reveal_strlit("sound_bot_search");
    reveal_strlit("sound_bot_paginate");
    reveal_strlit("soundbot_add_mp3_file");
    reveal_strlit("soundbot_ignore_mp3_file");
    assert(play_word().len() == 14 && play_random_word().len() == 21);
    assert(add_mp3_word().len() == 21 && ignore_mp3_word().len() == 24);
    assert(search_word().len() == 16 && paginate_word().len() == 18);
    assert(play_word()[10] != search_word()[10]);
    assert(play_word()[11] != paginate_word()[11]);
    assert(search_word()[10] != paginate_word()[10]);
    assert(add_mp3_word()[9] != ignore_mp3_word()[9]);
}

proof fn lemma_menu_words()
    ensures
        menu_all_word() != menu_pinned_word(),
        menu_all_word() != menu_most_played_word(),
        menu_all_word() != menu_recently_added_word(),
        menu_pinned_word() != menu_most_played_word(),
        menu_pinned_word() != menu_recently_added_word(),
        menu_most_played_word() != menu_recently_added_word(),
{
    reveal_strlit("sound_bot_display_menu_item_all");
    reveal_strlit("sound_bot_display_menu_item_pinned");
    reveal_strlit("sound_bot_display_menu_item_most_played");
    reveal_strlit("sound_bot_display_menu_item_recently_added");
    assert(menu_all_word()[28] != menu_pinned_word()[28]);
    assert(menu_all_word()[28] != menu_most_played_word()[28]);
    assert(menu_all_word()[28] != menu_recently_added_word()[28]);
    assert(menu_pinned_word()[28] != menu_most_played_word()[28]);
    assert(menu_pinned_word()[28] != menu_recently_added_word()[28]);
    assert(menu_most_played_word()[28] != menu_recently_added_word()[28]);
}

proof fn lemma_parse_decimal(n: u64)
    ensures
        head(decimal(n as nat)) == decimal(n as nat),
        tail(decimal(n as nat)) is None,
        parse_u64_spec(decimal(n as nat)) == Some(n),
{
    lemma_decimal(n as nat);
    lemma_split_plain(decimal(n as nat));
}

proof fn lemma_parse_signed_decimal(i: i64)
    ensures
        no_colon(signed_decimal(i as int)),
        parse_i64_spec(signed_decimal(i as int)) == Some(i),
{
    let s = signed_decimal(i as int);
    if i < 0 {
        let m = (-i) as nat;
        lemma_decimal(m);
        assert(s.drop_first() =~= decimal(m));
        assert(s[0] == '-');
        assert forall|j: int| 0 <= j < s.len() implies #[trigger] s[j] != ':' by {
            if j > 0 {
                assert(s[j] == decimal(m)[j - 1]);
            }
        }
    } else {
        lemma_decimal(i as nat);
    }
}

// ---------------------------------------------------------------------------
// The round-trip laws
/// Decoding the token of a request that can be built gives that request back.
pub proof fn lemma_paginate_round_trip(p: PaginateIdView)
    requires
        wf_paginate(p),
    ensures
        decode_paginate(encode_paginate(p)) == Some(p),
{
    lemma_words();
    match p {
        PaginateIdView::Listing(l, d, n) => {
            let k = list_display(l);
            lemma_verb_no_colon(k, d);
            lemma_split_joined(verb(k, d), decimal(n as nat));
            lemma_decode_verb(verb(k, d), k, d);
            lemma_parse_decimal(n);
        },
        PaginateIdView::Search(d, n, s) => {
            let k = DisplayType::Search;
            let t = encode_paginate(p);
            let rest = decimal(n as nat) + sep() + s;
            lemma_verb_no_colon(k, d);
            assert(t == verb(k, d) + sep() + rest);
            lemma_split_joined(verb(k, d), rest);
            lemma_decode_verb(verb(k, d), k, d);
            lemma_decimal(n as nat);
            lemma_split_joined(decimal(n as nat), s);
            lemma_parse_decimal(n);
        },
        PaginateIdView::Unknown(v) => {},
    }
}

/// Decoding the token of a button that can be built gives that button back.
pub proof fn lemma_button_round_trip(b: ButtonCustomIdView)
    requires
        wf_button(b),
    ensures
        decode_button(encode_button(b)) == Some(b),
{
    lemma_button_words();
    match b {
        ButtonCustomIdView::PlayAudio(i) => {
            lemma_split_joined(play_word(), signed_decimal(i as int));
            lemma_parse_signed_decimal(i);
            lemma_split_plain(signed_decimal(i as int));
        },
        ButtonCustomIdView::Paginate(p) => {
            lemma_split_joined(paginate_word(), encode_paginate(p));
            lemma_paginate_round_trip(p);
        },
        ButtonCustomIdView::Unknown(v) => {},
        _ => {
            lemma_split_plain(encode_button(b));
        },
    }
}

/// Decoding the value of a menu entry that can be built gives that entry back.
pub proof fn lemma_menu_item_round_trip(m: DisplayMenuItemView)
    requires
        wf_menu_item(m),
    ensures
        decode_menu_item(encode_menu_item(m)) == m,
{
    lemma_menu_words();
}

// ---------------------------------------------------------------------------
// Executable encoders and decoders
fn kind_text(k: DisplayType) -> (r: &'static str)
    ensures
        r@ == kind_word(k),
{
    match k {
        DisplayType::All => "all",
        DisplayType::RecentlyAdded => "recently_added",
        DisplayType::MostPlayed => "most_played",
        DisplayType::Pinned => "pinned",
        DisplayType::Search => "search",
    }
}

fn dir_text(d: PageDirection) -> (r: &'static str)
    ensures
        r@ == dir_word(d),
{
    match d {
        PageDirection::First => "first",
        PageDirection::Prev => "prev",
        PageDirection::Next => "next",
        PageDirection::Last => "last",
    }
}

fn verb_string(k: DisplayType, d: PageDirection) -> (r: String)
    ensures
        r@ == verb(k, d),
{
    let mut s = String::from_str(kind_text(k));
    s.append("_");
    s.append(dir_text(d));
    s.append("_page");
    s
}

fn match_dir(h: &str, k: DisplayType) -> (r: Option<PageDirection>)
    ensures
        match r {
            Some(d) => h@ == verb(k, d),
            None => forall|d: PageDirection| h@ != #[trigger] verb(k, d),
        },
{
    if str_eq(h, verb_string(k, PageDirection::First).as_str()) {
        return Some(PageDirection::First);
    }
    if str_eq(h, verb_string(k, PageDirection::Prev).as_str()) {
        return Some(PageDirection::Prev);
    }
    if str_eq(h, verb_string(k, PageDirection::Next).as_str()) {
        return Some(PageDirection::Next);
    }
    if str_eq(h, verb_string(k, PageDirection::Last).as_str()) {
        return Some(PageDirection::Last);
    }
    assert forall|d: PageDirection| h@ != #[trigger] verb(k, d) by {
        match d {
            PageDirection::First => {},
            PageDirection::Prev => {},
            PageDirection::Next => {},
            PageDirection::Last => {},
        }
    }
    None
}

fn match_verb(h: &str) -> (r: Option<(DisplayType, PageDirection)>)
    ensures
        match r {
            Some((k, d)) => h@ == verb(k, d),
            None => !is_verb(h@),
        },
{
    if let Some(d) = match_dir(h, DisplayType::All) {
        return Some((DisplayType::All, d));
    }
    if let Some(d) = match_dir(h, DisplayType::RecentlyAdded) {
        return Some((DisplayType::RecentlyAdded, d));
    }
    if let Some(d) = match_dir(h, DisplayType::MostPlayed) {
        return Some((DisplayType::MostPlayed, d));
    }
    if let Some(d) = match_dir(h, DisplayType::Pinned) {
        return Some((DisplayType::Pinned, d));
    }
    if let Some(d) = match_dir(h, DisplayType::Search) {
        return Some((DisplayType::Search, d));
    }
    assert forall|k: DisplayType, d: PageDirection| h@ != #[trigger] verb(k, d) by {
        match k {
            DisplayType::All => {},
            DisplayType::RecentlyAdded => {},
            DisplayType::MostPlayed => {},
            DisplayType::Pinned => {},
            DisplayType::Search => {},
        }
    }
    None
}

fn quoted_error(prefix: &str, token: &str) -> String {
    let mut s = String::from_str(prefix);
    s.append(" '");
    s.append(token);
    s.append("'");
    s
}

impl PaginateId {
    /// The token of this request.
    pub fn encode(&self) -> (r: String)
        ensures
            r@ == encode_paginate(self@),
    {
        proof {
            lemma_words();
        }
        match self {
            PaginateId::Listing(l, d, n) => {
                let mut s = verb_string(l.display_type(), *d);
                s.append("::");
                push_decimal(&mut s, *n);
                s
            },
            PaginateId::Search(d, n, text) => {
                let mut s = verb_string(DisplayType::Search, *d);
                s.append("::");
                push_decimal(&mut s, *n);
                s.append("::");
                s.append(text.as_str());
                s
            },
            PaginateId::Unknown(v) => v.clone(),
        }
    }

    /// Reads a token. A known verb whose offset is missing or is no `u64`
    /// decimal is an error; a token without a known verb is `Unknown`.
    pub fn decode(token: &str) -> (r: Result<PaginateId, String>)
        ensures
            match decode_paginate(token@) {
                Some(v) => r matches Ok(p) && p@ == v,
                None => r is Err,
            },
            r matches Ok(p) ==> wf_paginate(p@),
    {
        proof {
            lemma_words();
        }
        let (h, rest) = split_token(token);
        match match_verb(h) {
            None => Ok(PaginateId::Unknown(String::from_str(token))),
            Some((k, d)) => {
                proof {
                    lemma_decode_verb(h@, k, d);
                }
                let rest: &str = match rest {
                    Some(r) => r,
                    None => "",
                };
                let (offset, more) = split_token(rest);
                match parse_u64(offset) {
                    None => Err(quoted_error("Parse error on button page offset value:", token)),
                    Some(n) => {
                        if k == DisplayType::Search {
                            let text = match more {
                                Some(m) => String::from_str(m),
                                None => String::new(),
                            };
                            Ok(PaginateId::Search(d, n, text))
                        } else {
                            Ok(PaginateId::Listing(ListKind::from_display(k), d, n))
                        }
                    },
                }
            },
        }
    }
}

impl PaginateId {
    /// The list, offset and search text a pagination button asks for, with
    /// the direction dropped: the offset already says where to go. `None` for
    /// an unknown request.
    pub fn target(&self) -> (r: Option<(DisplayType, u64, String)>)
        ensures
            match self@ {
                PaginateIdView::Listing(l, _, n) => r matches Some((k2, n2, s)) && k2
                    == list_display(l) && n2 == n && s@.len() == 0,
                PaginateIdView::Search(_, n, t) => r matches Some((k2, n2, s)) && k2
                    == DisplayType::Search && n2 == n && s@ == t,
                PaginateIdView::Unknown(_) => r is None,
            },
    {
        match self {
            PaginateId::Listing(l, _, n) => Some((l.display_type(), *n, String::new())),
            PaginateId::Search(_, n, t) => Some((DisplayType::Search, *n, t.clone())),
            PaginateId::Unknown(_) => None,
        }
    }
}

impl ButtonCustomId {
    /// The token of this button.
    pub fn encode(&self) -> (r: String)
        ensures
            r@ == encode_button(self@),
    {
        proof {
            lemma_words();
        }
        match self {
            ButtonCustomId::PlayAudio(id) => {
                let mut s = String::from_str("sound_bot_play::");
                proof {
                    reveal_strlit("sound_bot_play::");
                    reveal_strlit("sound_bot_play");
                    assert("sound_bot_play::"@ =~= play_word() + sep());
                }
                push_signed_decimal(&mut s, *id);
                s
            },
            ButtonCustomId::PlayRandom => String::from_str("sound_bot_play_random"),
            ButtonCustomId::Search => String::from_str("sound_bot_search"),
            ButtonCustomId::Paginate(p) => {
                let mut s = String::from_str("sound_bot_paginate::");
                proof {
                    reveal_strlit("sound_bot_paginate::");
                    reveal_strlit("sound_bot_paginate");
                    assert("sound_bot_paginate::"@ =~= paginate_word() + sep());
                }
                let t = p.encode();
                s.append(t.as_str());
                s
            },
            ButtonCustomId::AddMp3File => String::from_str("soundbot_add_mp3_file"),
            ButtonCustomId::IgnoreMp3File => String::from_str("soundbot_ignore_mp3_file"),
            ButtonCustomId::Unknown(v) => v.clone(),
        }
    }

    /// Reads a token. A play button without a valid `i64` id, or a pagination
    /// button whose request is malformed, is an error; a token that names no
    /// known button is `Unknown`.
    pub fn decode(token: &str) -> (r: Result<ButtonCustomId, String>)
        ensures
            match decode_button(token@) {
                Some(v) => r matches Ok(b) && b@ == v,
                None => r is Err,
            },
            r matches Ok(b) ==> wf_button(b@),
    {
        proof {
            lemma_words();
            lemma_button_words();
        }
        let (h, rest) = split_token(token);
        let rest: &str = match rest {
            Some(r) => r,
            None => "",
        };
        if str_eq(h, "sound_bot_play") {
            let (id, _) = split_token(rest);
            match parse_i64(id) {
                Some(i) => Ok(ButtonCustomId::PlayAudio(i)),
                None => Err(quoted_error("Parse error on button custom id", token)),
            }
        } else if str_eq(h, "sound_bot_play_random") {
            Ok(ButtonCustomId::PlayRandom)
        } else if str_eq(h, "sound_bot_search") {
            Ok(ButtonCustomId::Search)
        } else if str_eq(h, "sound_bot_paginate") {
            match PaginateId::decode(rest) {
                Ok(p) => Ok(ButtonCustomId::Paginate(p)),
                Err(e) => Err(e),
            }
        } else if str_eq(h, "soundbot_add_mp3_file") {
            Ok(ButtonCustomId::AddMp3File)
        } else if str_eq(h, "soundbot_ignore_mp3_file") {
            Ok(ButtonCustomId::IgnoreMp3File)
        } else {
            Ok(ButtonCustomId::Unknown(String::from_str(token)))
        }
    }
}

impl DisplayMenuItemCustomId {
    /// The identifier of the menu itself.
    pub const CUSTOM_ID: &'static str = "sound_bot_display_menu";

    /// The value of this entry.
    pub fn encode(&self) -> (r: String)
        ensures
            r@ == encode_menu_item(self@),
    {
        match self {
            DisplayMenuItemCustomId::DisplayAll => String::from_str(
                "sound_bot_display_menu_item_all",
            ),
            DisplayMenuItemCustomId::DisplayPinned => String::from_str(
                "sound_bot_display_menu_item_pinned",
            ),
            DisplayMenuItemCustomId::DisplayMostPlayed => String::from_str(
                "sound_bot_display_menu_item_most_played",
            ),
            DisplayMenuItemCustomId::DisplayRecentlyAdded => String::from_str(
                "sound_bot_display_menu_item_recently_added",
            ),
            DisplayMenuItemCustomId::Unknown(v) => v.clone(),
        }
    }

    /// Reads a value; one that names no entry is `Unknown`.
    pub fn decode(value: &str) -> (r: DisplayMenuItemCustomId)
        ensures
            r@ == decode_menu_item(value@),
            wf_menu_item(r@),
    {
        if str_eq(value, "sound_bot_display_menu_item_all") {
            DisplayMenuItemCustomId::DisplayAll
        } else if str_eq(value, "sound_bot_display_menu_item_pinned") {
            DisplayMenuItemCustomId::DisplayPinned
        } else if str_eq(value, "sound_bot_display_menu_item_most_played") {
            DisplayMenuItemCustomId::DisplayMostPlayed
        } else if str_eq(value, "sound_bot_display_menu_item_recently_added") {
            DisplayMenuItemCustomId::DisplayRecentlyAdded
        } else {
            DisplayMenuItemCustomId::Unknown(String::from_str(value))
        }
    }

    /// The list this entry shows; an unknown entry shows all sounds.
    pub fn display_type(&self) -> (r: DisplayType)
        ensures
            r == match self@ {
                DisplayMenuItemView::DisplayPinned => DisplayType::Pinned,
                DisplayMenuItemView::DisplayMostPlayed => DisplayType::MostPlayed,
                DisplayMenuItemView::DisplayRecentlyAdded => DisplayType::RecentlyAdded,
                _ => DisplayType::All,
            },
    {
        match self {
            DisplayMenuItemCustomId::DisplayPinned => DisplayType::Pinned,
            DisplayMenuItemCustomId::DisplayMostPlayed => DisplayType::MostPlayed,
            DisplayMenuItemCustomId::DisplayRecentlyAdded => DisplayType::RecentlyAdded,
            _ => DisplayType::All,
        }
    }
}

impl DisplayType {
    /// The menu entry of this list; search results have none and give an empty
    /// `Unknown`.
    pub fn menu_item(&self) -> (r: DisplayMenuItemCustomId)
        ensures
            r@ == match *self {
                DisplayType::All => DisplayMenuItemView::DisplayAll,
                DisplayType::Pinned => DisplayMenuItemView::DisplayPinned,
                DisplayType::MostPlayed => DisplayMenuItemView::DisplayMostPlayed,
                DisplayType::RecentlyAdded => DisplayMenuItemView::DisplayRecentlyAdded,
                DisplayType::Search => DisplayMenuItemView::Unknown(Seq::empty()),
            },
    {
        match self {
            DisplayType::All => DisplayMenuItemCustomId::DisplayAll,
            DisplayType::Pinned => DisplayMenuItemCustomId::DisplayPinned,
            DisplayType::MostPlayed => DisplayMenuItemCustomId::DisplayMostPlayed,
            DisplayType::RecentlyAdded => DisplayMenuItemCustomId::DisplayRecentlyAdded,
            DisplayType::Search => DisplayMenuItemCustomId::Unknown(String::new()),
        }
    }
}

} // verus!
