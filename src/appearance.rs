//! The appearance record of the two system bars and how it is filled in from
//! partial input.

use vstd::prelude::*;

use crate::input::{JsonField, JsonInput};

verus! {

/// Configuration for appearance-related settings.
pub struct AppearanceConfig {
    /// Whether custom colors should be applied to system bars.
    pub custom_colors_for_system_bars: bool,
    /// The color of the status bar.
    pub status_bar_color: String,
    /// The content style of the status bar (e.g. `light` or `dark`).
    pub status_bar_content: String,
    /// The color of the navigation bar.
    pub navigation_bar_color: String,
    /// The content style of the navigation bar (e.g. `light` or `dark`).
    pub navigation_bar_content: String,
}

/// The mathematical value of an [`AppearanceConfig`].
pub struct AppearanceView {
    pub custom_colors_for_system_bars: bool,
    pub status_bar_color: Seq<char>,
    pub status_bar_content: Seq<char>,
    pub navigation_bar_color: Seq<char>,
    pub navigation_bar_content: Seq<char>,
}

impl View for AppearanceConfig {
    type V = AppearanceView;

    open spec fn view(&self) -> AppearanceView {
        AppearanceView {
            custom_colors_for_system_bars: self.custom_colors_for_system_bars,
            status_bar_color: self.status_bar_color@,
            status_bar_content: self.status_bar_content@,
            navigation_bar_color: self.navigation_bar_color@,
            navigation_bar_content: self.navigation_bar_content@,
        }
    }
}

pub open spec fn default_color() -> Seq<char> {
    "#000000"@
}

pub open spec fn default_content() -> Seq<char> {
    "light"@
}

/// The record in which every field holds its default.
pub open spec fn default_appearance() -> AppearanceView {
    AppearanceView {
        custom_colors_for_system_bars: true,
        status_bar_color: default_color(),
        status_bar_content: default_content(),
        navigation_bar_color: default_color(),
        navigation_bar_content: default_content(),
    }
}

/// Default of `custom_colors_for_system_bars`.
pub fn default_custom_colors_for_system_bars() -> (r: bool)
    ensures
        r == default_appearance().custom_colors_for_system_bars,
{
    true
}

/// Default of `status_bar_color`.
pub fn default_status_bar_color() -> (r: String)
    ensures
        r@ == default_appearance().status_bar_color,
{
    String::from_str("#000000")
}

/// Default of `status_bar_content`.
pub fn default_status_bar_content() -> (r: String)
    ensures
        r@ == default_appearance().status_bar_content,
{
    String::from_str("light")
}

/// Default of `navigation_bar_color`.
pub fn default_navigation_bar_color() -> (r: String)
    ensures
        r@ == default_appearance().navigation_bar_color,
{
    String::from_str("#000000")
}

/// Default of `navigation_bar_content`.
pub fn default_navigation_bar_content() -> (r: String)
    ensures
        r@ == default_appearance().navigation_bar_content,
{
    String::from_str("light")
}

impl Default for AppearanceConfig {
    fn default() -> (r: Self)
        ensures
            r@ == default_appearance(),
    {
        AppearanceConfig {
            custom_colors_for_system_bars: default_custom_colors_for_system_bars(),
            status_bar_color: default_status_bar_color(),
            status_bar_content: default_status_bar_content(),
            navigation_bar_color: default_navigation_bar_color(),
            navigation_bar_content: default_navigation_bar_content(),
        }
    }
}

/// Appearance input in which each field may be missing.
pub struct AppearanceFields {
    pub custom_colors_for_system_bars: Option<bool>,
    pub status_bar_color: Option<String>,
    pub status_bar_content: Option<String>,
    pub navigation_bar_color: Option<String>,
    pub navigation_bar_content: Option<String>,
}

/// The mathematical value of an [`AppearanceFields`].
pub struct AppearanceFieldsView {
    pub custom_colors_for_system_bars: Option<bool>,
    pub status_bar_color: Option<Seq<char>>,
    pub status_bar_content: Option<Seq<char>>,
    pub navigation_bar_color: Option<Seq<char>>,
    pub navigation_bar_content: Option<Seq<char>>,
}

pub open spec fn text_view(o: Option<String>) -> Option<Seq<char>> {
    match o {
        Some(s) => Some(s@),
        None => None,
    }
}

impl View for AppearanceFields {
    type V = AppearanceFieldsView;

    open spec fn view(&self) -> AppearanceFieldsView {
        AppearanceFieldsView {
            custom_colors_for_system_bars: self.custom_colors_for_system_bars,
            status_bar_color: text_view(self.status_bar_color),
            status_bar_content: text_view(self.status_bar_content),
            navigation_bar_color: text_view(self.navigation_bar_color),
            navigation_bar_content: text_view(self.navigation_bar_content),
        }
    }
}

pub open spec fn fields_view(o: Option<AppearanceFields>) -> Option<AppearanceFieldsView> {
    match o {
        Some(f) => Some(f@),
        None => None,
    }
}

/// Input with no field given.
pub open spec fn no_fields() -> AppearanceFieldsView {
    AppearanceFieldsView {
        custom_colors_for_system_bars: None,
        status_bar_color: None,
        status_bar_content: None,
        navigation_bar_color: None,
        navigation_bar_content: None,
    }
}

pub open spec fn text_or(o: Option<Seq<char>>, d: Seq<char>) -> Seq<char> {
    match o {
        Some(s) => s,
        None => d,
    }
}

/// Each given field kept, each missing one replaced by its default.
pub open spec fn fill_defaults(f: AppearanceFieldsView) -> AppearanceView {
    AppearanceView {
        custom_colors_for_system_bars: match f.custom_colors_for_system_bars {
            Some(b) => b,
            None => default_appearance().custom_colors_for_system_bars,
        },
        status_bar_color: text_or(f.status_bar_color, default_appearance().status_bar_color),
        status_bar_content: text_or(f.status_bar_content, default_appearance().status_bar_content),
        navigation_bar_color: text_or(
            f.navigation_bar_color,
            default_appearance().navigation_bar_color,
        ),
        navigation_bar_content: text_or(
            f.navigation_bar_content,
            default_appearance().navigation_bar_content,
        ),
    }
}

pub open spec fn bool_of(v: JsonField) -> Option<bool> {
    match v {
        JsonField::Bool(b) => Some(b),
        _ => None,
    }
}

pub open spec fn text_of(v: JsonField) -> Option<Seq<char>> {
    match v {
        JsonField::Text(s) => Some(s@),
        _ => None,
    }
}

/// Takes in one member of an object: a member named like a field sets it, and
/// fails when that field was already set or the value has the wrong type; a
/// member of any other name is ignored.
pub open spec fn take_member(f: AppearanceFieldsView, key: Seq<char>, v: JsonField) -> Option<
    AppearanceFieldsView,
> {
    if key == "custom_colors_for_system_bars"@ {
        if f.custom_colors_for_system_bars is Some || bool_of(v) is None {
            None
        } else {
            Some(AppearanceFieldsView { custom_colors_for_system_bars: bool_of(v), ..f })
        }
    } else if key == "status_bar_color"@ {
        if f.status_bar_color is Some || text_of(v) is None {
            None
        } else {
            Some(AppearanceFieldsView { status_bar_color: text_of(v), ..f })
        }
    } else if key == "status_bar_content"@ {
        if f.status_bar_content is Some || text_of(v) is None {
            None
        } else {
            Some(AppearanceFieldsView { status_bar_content: text_of(v), ..f })
        }
    } else if key == "navigation_bar_color"@ {
        if f.navigation_bar_color is Some || text_of(v) is None {
            None
        } else {
            Some(AppearanceFieldsView { navigation_bar_color: text_of(v), ..f })
        }
    } else if key == "navigation_bar_content"@ {
        if f.navigation_bar_content is Some || text_of(v) is None {
            None
        } else {
            Some(AppearanceFieldsView { navigation_bar_content: text_of(v), ..f })
        }
    } else {
        Some(f)
    }
}

/// The fields that the members of an object give, in order, or `None` where
/// one of them is malformed.
pub open spec fn object_fields(members: Seq<(String, JsonField)>) -> Option<AppearanceFieldsView>
    decreases members.len(),
{
    if members.len() == 0 {
        Some(no_fields())
    } else {
        match object_fields(members.drop_last()) {
            Some(f) => take_member(f, members.last().0@, members.last().1),
            None => None,
        }
    }
}

/// Slot `i` of an array read as a boolean: `Some(None)` past its end, `None`
/// when it holds another type.
pub open spec fn bool_slot(items: Seq<JsonField>, i: int) -> Option<Option<bool>> {
    if i >= items.len() {
        Some(None)
    } else if bool_of(items[i]) is Some {
        Some(bool_of(items[i]))
    } else {
        None
    }
}

/// Slot `i` of an array read as a string, as [`bool_slot`] does.
pub open spec fn text_slot(items: Seq<JsonField>, i: int) -> Option<Option<Seq<char>>> {
    if i >= items.len() {
        Some(None)
    } else if text_of(items[i]) is Some {
        Some(text_of(items[i]))
    } else {
        None
    }
}

/// The fields that an array gives by position, in declaration order; more
/// elements than fields, or one of the wrong type, is malformed.
pub open spec fn array_fields(items: Seq<JsonField>) -> Option<AppearanceFieldsView> {
    if items.len() > 5 {
        None
    } else {
        match (
            bool_slot(items, 0),
            text_slot(items, 1),
            text_slot(items, 2),
            text_slot(items, 3),
            text_slot(items, 4),
        ) {
            (Some(a), Some(b), Some(c), Some(d), Some(e)) => Some(
                AppearanceFieldsView {
                    custom_colors_for_system_bars: a,
                    status_bar_color: b,
                    status_bar_content: c,
                    navigation_bar_color: d,
                    navigation_bar_content: e,
                },
            ),
            _ => None,
        }
    }
}

/// The fields that a JSON value gives, or `None` where its shape is not that
/// of an appearance record.
pub open spec fn input_fields(input: JsonInput) -> Option<AppearanceFieldsView> {
    match input {
        JsonInput::Object(members) => object_fields(members@),
        JsonInput::Array(items) => array_fields(items@),
        JsonInput::Other => None,
    }
}

/// The record that optional JSON input describes: its fields filled in with
/// defaults, or the full default record where the input is absent or
/// malformed.
pub open spec fn appearance_of(value: Option<JsonInput>) -> AppearanceView {
    match value {
        Some(input) => match input_fields(input) {
            Some(f) => fill_defaults(f),
            None => default_appearance(),
        },
        None => default_appearance(),
    }
}

fn key_is(key: &String, name: &str) -> (r: bool)
    ensures
        r == (key@ == name@),
{
    let n = String::from_str(name);
    key.eq(&n)
}

fn take_text(slot: &mut Option<String>, v: &JsonField) -> (ok: bool)
    ensures
        ok == (*old(slot) is None && text_of(*v) is Some),
        ok ==> text_view(*final(slot)) == text_of(*v),
{
    if slot.is_some() {
        return false;
    }
    match v {
        JsonField::Text(s) => {
            *slot = Some(s.clone());
            true
        },
        _ => false,
    }
}

impl AppearanceFields {
    /// Input with no field given.
    pub fn empty() -> (r: Self)
        ensures
            r@ == no_fields(),
    {
        AppearanceFields {
            custom_colors_for_system_bars: None,
            status_bar_color: None,
            status_bar_content: None,
            navigation_bar_color: None,
            navigation_bar_content: None,
        }
    }

    fn take_member(&mut self, key: &String, v: &JsonField) -> (ok: bool)
        ensures
            ok == take_member(old(self)@, key@, *v) is Some,
            ok ==> final(self)@ == take_member(old(self)@, key@, *v)->0,
    {
        if key_is(key, "custom_colors_for_system_bars") {
            if self.custom_colors_for_system_bars.is_some() {
                return false;
            }
            match v {
                JsonField::Bool(b) => {
                    self.custom_colors_for_system_bars = Some(*b);
                    true
                },
                _ => false,
            }
        } else if key_is(key, "status_bar_color") {
            take_text(&mut self.status_bar_color, v)
        } else if key_is(key, "status_bar_content") {
            take_text(&mut self.status_bar_content, v)
        } else if key_is(key, "navigation_bar_color") {
            take_text(&mut self.navigation_bar_color, v)
        } else if key_is(key, "navigation_bar_content") {
            take_text(&mut self.navigation_bar_content, v)
        } else {
            true
        }
    }
}

fn bool_slot_of(items: &Vec<JsonField>, i: usize) -> (r: Option<Option<bool>>)
    ensures
        r == bool_slot(items@, i as int),
{
    if i >= items.len() {
        return Some(None);
    }
    match &items[i] {
        JsonField::Bool(b) => Some(Some(*b)),
        _ => None,
    }
}

fn text_slot_of(items: &Vec<JsonField>, i: usize) -> (r: Option<Option<String>>)
    ensures
        r is None <==> text_slot(items@, i as int) is None,
        r matches Some(o) ==> text_slot(items@, i as int) == Some(text_view(o)),
{
    if i >= items.len() {
        return Some(None);
    }
    match &items[i] {
        JsonField::Text(s) => Some(Some(s.clone())),
        _ => None,
    }
}

impl AppearanceFields {
    /// Reads the fields that the members of an object give, in order.
    pub fn from_members(members: &Vec<(String, JsonField)>) -> (r: Option<Self>)
        ensures
            fields_view(r) == object_fields(members@),
    {
        let mut fields = AppearanceFields::empty();
        let mut ok = true;
        let mut i: usize = 0;
        while i < members.len()
            invariant
                i <= members.len(),
                ok == object_fields(members@.take(i as int)) is Some,
                ok ==> fields@ == object_fields(members@.take(i as int))->0,
            decreases members.len() - i,
        {
            assert(members@.take(i as int + 1).drop_last() == members@.take(i as int));
            if ok {
                let (key, value) = &members[i];
                ok = fields.take_member(key, value);
            }
            i = i + 1;
        }
        assert(members@.take(members.len() as int) == members@);
        if ok {
            Some(fields)
        } else {
            None
        }
    }

    /// Reads the fields that an array gives by position.
    pub fn from_items(items: &Vec<JsonField>) -> (r: Option<Self>)
        ensures
            fields_view(r) == array_fields(items@),
    {
        if items.len() > 5 {
            return None;
        }
        let a = bool_slot_of(items, 0);
        let b = text_slot_of(items, 1);
        let c = text_slot_of(items, 2);
        let d = text_slot_of(items, 3);
        let e = text_slot_of(items, 4);
        match (a, b, c, d, e) {
            (Some(a), Some(b), Some(c), Some(d), Some(e)) => Some(
                AppearanceFields {
                    custom_colors_for_system_bars: a,
                    status_bar_color: b,
                    status_bar_content: c,
                    navigation_bar_color: d,
                    navigation_bar_content: e,
                },
            ),
            _ => None,
        }
    }

    /// Reads the fields that a JSON value gives; `None` where its shape is
    /// not that of an appearance record.
    pub fn from_input(input: &JsonInput) -> (r: Option<Self>)
        ensures
            fields_view(r) == input_fields(*input),
    {
        match input {
            JsonInput::Object(members) => Self::from_members(members),
            JsonInput::Array(items) => Self::from_items(items),
            JsonInput::Other => None,
        }
    }
}

fn text_or_default(o: Option<String>, d: String) -> (r: String)
    ensures
        r@ == text_or(text_view(o), d@),
{
    match o {
        Some(s) => s,
        None => d,
    }
}

impl AppearanceConfig {
    /// The record with each given field kept and each missing one set to its
    /// default.
    pub fn from_fields(fields: AppearanceFields) -> (r: Self)
        ensures
            r@ == fill_defaults(fields@),
    {
        AppearanceConfig {
            custom_colors_for_system_bars: match fields.custom_colors_for_system_bars {
                Some(b) => b,
                None => default_custom_colors_for_system_bars(),
            },
            status_bar_color: text_or_default(fields.status_bar_color, default_status_bar_color()),
            status_bar_content: text_or_default(
                fields.status_bar_content,
                default_status_bar_content(),
            ),
            navigation_bar_color: text_or_default(
                fields.navigation_bar_color,
                default_navigation_bar_color(),
            ),
            navigation_bar_content: text_or_default(
                fields.navigation_bar_content,
                default_navigation_bar_content(),
            ),
        }
    }

    /// Creates the record from optional JSON input. Missing fields take their
    /// defaults; absent or malformed input gives the full default record.
    pub fn from_json(value: Option<&JsonInput>) -> (r: Self)
        ensures
            r@ == appearance_of(
                match value {
                    Some(v) => Some(*v),
                    None => None,
                },
            ),
    {
        match value {
            Some(input) => match AppearanceFields::from_input(input) {
                Some(fields) => Self::from_fields(fields),
                None => Self::default(),
            },
            None => Self::default(),
        }
    }
}

/// An appearance input that leaves some fields out gives a record in which
/// exactly those fields hold their default literals, and every field it gives
/// keeps the value it was given.
pub proof fn lemma_missing_fields_take_defaults(input: JsonInput, f: AppearanceFieldsView)
    requires
        input_fields(input) == Some(f),
    ensures
        ({
            let r = appearance_of(Some(input));
            &&& f.custom_colors_for_system_bars is None ==> r.custom_colors_for_system_bars
            &&& f.custom_colors_for_system_bars matches Some(b) ==> r.custom_colors_for_system_bars
                == b
            &&& f.status_bar_color is None ==> r.status_bar_color == "#000000"@
            &&& f.status_bar_color matches Some(c) ==> r.status_bar_color == c
            &&& f.status_bar_content is None ==> r.status_bar_content == "light"@
            &&& f.status_bar_content matches Some(c) ==> r.status_bar_content == c
            &&& f.navigation_bar_color is None ==> r.navigation_bar_color == "#000000"@
            &&& f.navigation_bar_color matches Some(c) ==> r.navigation_bar_color == c
            &&& f.navigation_bar_content is None ==> r.navigation_bar_content == "light"@
            &&& f.navigation_bar_content matches Some(c) ==> r.navigation_bar_content == c
        }),
{
}

/// Input whose shape is not that of an appearance record, like absent input,
/// gives the full default record rather than a failure.
pub proof fn lemma_malformed_input_gives_defaults(input: JsonInput)
    requires
        input_fields(input) is None,
    ensures
        appearance_of(Some(input)) == default_appearance(),
        appearance_of(None) == default_appearance(),
        default_appearance() == (AppearanceView {
            custom_colors_for_system_bars: true,
            status_bar_color: "#000000"@,
            status_bar_content: "light"@,
            navigation_bar_color: "#000000"@,
            navigation_bar_content: "light"@,
        }),
{
}

} // verus!
