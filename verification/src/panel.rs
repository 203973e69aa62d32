//! One side of the comparison view.
//!
//! A `Panel` remembers which font family the user chose, which exact font of
//! that family is shown, and how its variant buttons are laid out. The logic
//! here resolves a chosen family to a sensible default font, registers the
//! loaded fonts with egui's font table, and lays out one button per
//! non-regular variant.

use vstd::prelude::*;
use vstd::string::StringExecFns;

use crate::registry::{
    font_data_of, insert_font_data, named_families_of, named_family_contains, set_named_family,
};
use crate::text::{ends_with, find_dash, has_dash, str_ends_with, variance, variance_of};

verus! {

/// The selection state of one comparison box.
#[derive(Clone)]
pub struct Panel {
    /// Label of the box, only used to give its widgets distinct ids.
    pub name: String,
    /// The family the user chose, or `"Default"` for the built-in font.
    pub selected: String,
    /// The PostScript name of the font currently shown.
    pub exact_font: String,
    /// The PostScript name picked as the family's regular variant.
    pub regular: String,
    /// How many columns the variant area is split into.
    pub num_columns: usize,
    /// How many of those columns take variant buttons.
    pub num_col_use: usize,
}

impl Panel {
    /// The column counts that the button layout is well defined for: at
    /// least one usable column, and buttons stay left of `num_columns`.
    pub open spec fn wf(&self) -> bool {
        1 <= self.num_col_use && self.num_col_use < self.num_columns
    }
}

impl Default for Panel {
    /// A box with nothing selected, split into five columns of which
    /// three take variant buttons.
    fn default() -> (r: Self)
        ensures
            r.wf(),
            r.name@ == "box"@,
            r.selected@ == "Default"@,
            r.exact_font@ == ""@,
            r.regular@ == ""@,
            r.num_columns == 5,
            r.num_col_use == 3,
    {
        Panel {
            name: "box".to_owned(),
            selected: "Default".to_owned(),
            exact_font: "".to_owned(),
            regular: "".to_owned(),
            num_columns: 5,
            num_col_use: 3,
        }
    }
}

/// Whether a font name counts as the regular variant of the selected
/// family: no variant part, the family name itself, or a `-Regular` suffix.
pub open spec fn is_regular_name(name: Seq<char>, selected: Seq<char>) -> bool {
    variance_of(name).len() == 0 || name == selected || ends_with(name, "-Regular"@)
}

/// The position of the first name with a `-Regular` suffix, or the length
/// of the list when no name has one.
pub open spec fn first_regular_at(names: Seq<Seq<char>>) -> int
    decreases names.len(),
{
    if names.len() == 0 {
        0
    } else if ends_with(names[0], "-Regular"@) {
        0
    } else {
        1 + first_regular_at(names.skip(1))
    }
}

/// The position of the first name without a hyphen, or the length of the
/// list when every name has one.
pub open spec fn first_plain_at(names: Seq<Seq<char>>) -> int
    decreases names.len(),
{
    if names.len() == 0 {
        0
    } else if !has_dash(names[0]) {
        0
    } else {
        1 + first_plain_at(names.skip(1))
    }
}

/// The default font of a family: the first name with a `-Regular` suffix,
/// else the first name without a hyphen, else the first name.
pub open spec fn pick_default(names: Seq<Seq<char>>) -> Seq<char>
    recommends
        0 < names.len(),
{
    if first_regular_at(names) < names.len() {
        names[first_regular_at(names)]
    } else if first_plain_at(names) < names.len() {
        names[first_plain_at(names)]
    } else {
        names[0]
    }
}

/// The names of a list of loaded fonts, in order.
pub open spec fn names_of(loaded: Seq<(Seq<char>, Seq<u8>)>) -> Seq<Seq<char>> {
    loaded.map_values(|e: (Seq<char>, Seq<u8>)| e.0)
}

/// The font table's byte map after storing the first `k` loaded fonts, each
/// under its name; a later font of the same name wins.
pub open spec fn with_loaded_fonts(
    m: Map<Seq<char>, Seq<u8>>,
    loaded: Seq<(Seq<char>, Seq<u8>)>,
    k: int,
) -> Map<Seq<char>, Seq<u8>>
    recommends
        k <= loaded.len(),
    decreases k,
{
    if k <= 0 {
        m
    } else {
        with_loaded_fonts(m, loaded, k - 1).insert(loaded[k - 1].0, loaded[k - 1].1)
    }
}

proof fn lemma_first_regular_at_is(names: Seq<Seq<char>>, i: int)
    requires
        0 <= i < names.len(),
        ends_with(names[i], "-Regular"@),
        forall|j: int| 0 <= j < i ==> !ends_with(names[j], "-Regular"@),
    ensures
        first_regular_at(names) == i,
    decreases names.len(),
{
    if i > 0 {
        assert(forall|j: int|
            0 <= j < names.skip(1).len() ==> names.skip(1)[j] == names[j + 1]);
        lemma_first_regular_at_is(names.skip(1), i - 1);
    }
}

proof fn lemma_first_regular_at_none(names: Seq<Seq<char>>)
    requires
        forall|j: int| 0 <= j < names.len() ==> !ends_with(names[j], "-Regular"@),
    ensures
        first_regular_at(names) == names.len(),
    decreases names.len(),
{
    if names.len() != 0 {
        assert(forall|j: int|
            0 <= j < names.skip(1).len() ==> names.skip(1)[j] == names[j + 1]);
        lemma_first_regular_at_none(names.skip(1));
    }
}

proof fn lemma_first_plain_at_is(names: Seq<Seq<char>>, i: int)
    requires
        0 <= i < names.len(),
        !has_dash(names[i]),
        forall|j: int| 0 <= j < i ==> has_dash(names[j]),
    ensures
        first_plain_at(names) == i,
    decreases names.len(),
{
    if i > 0 {
        assert(forall|j: int|
            0 <= j < names.skip(1).len() ==> names.skip(1)[j] == names[j + 1]);
        lemma_first_plain_at_is(names.skip(1), i - 1);
    }
}

proof fn lemma_first_plain_at_none(names: Seq<Seq<char>>)
    requires
        forall|j: int| 0 <= j < names.len() ==> has_dash(names[j]),
    ensures
        first_plain_at(names) == names.len(),
    decreases names.len(),
{
    if names.len() != 0 {
        assert(forall|j: int|
            0 <= j < names.skip(1).len() ==> names.skip(1)[j] == names[j + 1]);
        lemma_first_plain_at_none(names.skip(1));
    }
}

/// The pick takes the first name with a `-Regular` suffix where one exists.
pub proof fn lemma_pick_default_first_regular(names: Seq<Seq<char>>, i: int)
    requires
        0 <= i < names.len(),
        ends_with(names[i], "-Regular"@),
        forall|j: int| 0 <= j < i ==> !ends_with(names[j], "-Regular"@),
    ensures
        pick_default(names) == names[i],
{
    lemma_first_regular_at_is(names, i);
}

/// Without a `-Regular` name, the pick takes the first hyphen-less name.
pub proof fn lemma_pick_default_first_plain(names: Seq<Seq<char>>, i: int)
    requires
        forall|j: int| 0 <= j < names.len() ==> !ends_with(names[j], "-Regular"@),
        0 <= i < names.len(),
        !has_dash(names[i]),
        forall|j: int| 0 <= j < i ==> has_dash(names[j]),
    ensures
        pick_default(names) == names[i],
{
    lemma_first_regular_at_none(names);
    lemma_first_plain_at_is(names, i);
}

/// With neither kind of name present, the pick falls back to the first.
pub proof fn lemma_pick_default_fallback(names: Seq<Seq<char>>)
    requires
        0 < names.len(),
        forall|j: int| 0 <= j < names.len() ==> !ends_with(names[j], "-Regular"@),
        forall|j: int| 0 <= j < names.len() ==> has_dash(names[j]),
    ensures
        pick_default(names) == names[0],
{
    lemma_first_regular_at_none(names);
    lemma_first_plain_at_none(names);
}

/// The default font of a family, given the PostScript names of its fonts:
/// the first name with a `-Regular` suffix, else the first name without a
/// hyphen, else the first name.
pub fn pick_default_font(names: &Vec<String>) -> (r: String)
    requires
        names@.len() > 0,
    ensures
        r@ == pick_default(names.deep_view()),
{
    let ghost dv = names.deep_view();
    let mut regular_at: Option<usize> = None;
    let mut plain_at: Option<usize> = None;
    let mut k: usize = 0;
    while k < names.len()
        invariant
            k <= names@.len(),
            dv == names.deep_view(),
            regular_at matches Some(i) ==> 0 <= i < k && ends_with(dv[i as int], "-Regular"@)
                && (forall|j: int| 0 <= j < i ==> !ends_with(dv[j], "-Regular"@)),
            regular_at is None ==> forall|j: int| 0 <= j < k ==> !ends_with(dv[j], "-Regular"@),
            plain_at matches Some(i) ==> 0 <= i < k && !has_dash(dv[i as int]) && (forall|j: int|
                0 <= j < i ==> has_dash(dv[j])),
            plain_at is None ==> forall|j: int| 0 <= j < k ==> has_dash(dv[j]),
        decreases names@.len() - k,
    {
        assert(dv[k as int] == names@[k as int]@);
        if regular_at.is_none() {
            if str_ends_with(names[k].as_str(), "-Regular") {
                regular_at = Some(k);
            }
        }
        if plain_at.is_none() {
            match find_dash(names[k].as_str()) {
                Some(d) => {
                    assert(dv[k as int][d as int] == '-');
                    assert(has_dash(dv[k as int]));
                },
                None => {
                    plain_at = Some(k);
                },
            }
        }
        k = k + 1;
    }
    match regular_at {
        Some(i) => {
            proof {
                lemma_first_regular_at_is(dv, i as int);
            }
            names[i].clone()
        },
        None => {
            proof {
                lemma_first_regular_at_none(dv);
            }
            match plain_at {
                Some(i) => {
                    proof {
                        lemma_first_plain_at_is(dv, i as int);
                    }
                    names[i].clone()
                },
                None => {
                    proof {
                        lemma_first_plain_at_none(dv);
                    }
                    names[0].clone()
                },
            }
        },
    }
}

impl Panel {
    /// Whether the box has a family selected, rather than the built-in font.
    pub fn has_selection(&self) -> (r: bool)
        ensures
            r == (self.selected@ != "Default"@),
    {
        let default_name: String = "Default".to_owned();
        !(self.selected == default_name)
    }

    /// Whether `name` counts as the regular variant of the selected family.
    pub fn is_regular(&self, name: &str) -> (r: bool)
        ensures
            r == is_regular_name(name@, self.selected@),
    {
        let var = variance(name);
        if var.as_str().is_empty() {
            return true;
        }
        if name.to_owned() == self.selected {
            return true;
        }
        str_ends_with(name, "-Regular")
    }

    /// Whether a font list is registered under `name` in egui's font table.
    pub fn is_name_in_fonts(&self, fonts: &egui::FontDefinitions, name: &String) -> (r: bool)
        ensures
            r == named_families_of(*fonts).dom().contains(name@),
    {
        named_family_contains(fonts, name)
    }

    /// Whether the text of this box should be drawn with the selected
    /// family: a family is selected and its fonts are registered.
    pub fn uses_selected_font(&self, fonts: &egui::FontDefinitions) -> (r: bool)
        ensures
            r == (self.selected@ != "Default"@ && named_families_of(*fonts).dom().contains(
                self.selected@,
            )),
    {
        self.has_selection() && self.is_name_in_fonts(fonts, &self.selected)
    }

    /// Whether both boxes show the same family.
    pub fn same_selection(&self, other: &Panel) -> (r: bool)
        ensures
            r == (self.selected@ == other.selected@),
    {
        self.selected == other.selected
    }

    /// Registers `new_font` as the single font behind the selected family's
    /// alias in egui's font table.
    pub fn link_font(&self, fonts: &mut egui::FontDefinitions, new_font: String)
        ensures
            named_families_of(*final(fonts)) == named_families_of(*old(fonts)).insert(
                self.selected@,
                seq![new_font@],
            ),
            font_data_of(*final(fonts)) == font_data_of(*old(fonts)),
    {
        let ghost font_view = new_font@;
        let mut list: Vec<String> = Vec::new();
        list.push(new_font);
        assert(list.deep_view() =~= seq![font_view]);
        set_named_family(fonts, &self.selected, list);
    }

    /// Makes `name` the shown font of this box and links it behind the
    /// selected family's alias.
    pub fn select_variant(&mut self, fonts: &mut egui::FontDefinitions, name: String)
        ensures
            final(self).exact_font == name,
            final(self).name == old(self).name,
            final(self).selected == old(self).selected,
            final(self).regular == old(self).regular,
            final(self).num_columns == old(self).num_columns,
            final(self).num_col_use == old(self).num_col_use,
            named_families_of(*final(fonts)) == named_families_of(*old(fonts)).insert(
                old(self).selected@,
                seq![name@],
            ),
            font_data_of(*final(fonts)) == font_data_of(*old(fonts)),
    {
        self.exact_font = name.clone();
        self.link_font(fonts, name);
    }

    /// Stores a freshly loaded family in egui's font table and shows its
    /// default variant: every font's bytes go in under its name, the default
    /// pick becomes the single font behind the family's alias, and the box
    /// remembers it as both the shown and the regular font.
    pub fn register_family(
        &mut self,
        fonts: &mut egui::FontDefinitions,
        loaded: &Vec<(String, Vec<u8>)>,
    )
        requires
            loaded@.len() > 0,
        ensures
            final(self).exact_font@ == pick_default(names_of(loaded.deep_view())),
            final(self).regular@ == pick_default(names_of(loaded.deep_view())),
            final(self).name == old(self).name,
            final(self).selected == old(self).selected,
            final(self).num_columns == old(self).num_columns,
            final(self).num_col_use == old(self).num_col_use,
            font_data_of(*final(fonts)) == with_loaded_fonts(
                font_data_of(*old(fonts)),
                loaded.deep_view(),
                loaded@.len() as int,
            ),
            named_families_of(*final(fonts)) == named_families_of(*old(fonts)).insert(
                old(self).selected@,
                seq![pick_default(names_of(loaded.deep_view()))],
            ),
    {
        let mut names: Vec<String> = Vec::new();
        let mut k: usize = 0;
        while k < loaded.len()
            invariant
                k <= loaded@.len(),
                names@.len() == k,
                forall|j: int| 0 <= j < k ==> names@[j]@ == loaded@[j].0@,
            decreases loaded@.len() - k,
        {
            names.push(loaded[k].0.clone());
            k = k + 1;
        }
        proof {
            assert forall|j: int| 0 <= j < loaded@.len() implies names.deep_view()[j] == names_of(
                loaded.deep_view(),
            )[j] by {
                assert(names.deep_view()[j] == names@[j]@);
                assert(loaded.deep_view()[j].0 == loaded@[j].0@);
            }
            assert(names.deep_view() =~= names_of(loaded.deep_view()));
        }
        let new_font = pick_default_font(&names);

        let mut k: usize = 0;
        while k < loaded.len()
            invariant
                k <= loaded@.len(),
                font_data_of(*fonts) == with_loaded_fonts(
                    font_data_of(*old(fonts)),
                    loaded.deep_view(),
                    k as int,
                ),
                named_families_of(*fonts) == named_families_of(*old(fonts)),
            decreases loaded@.len() - k,
        {
            let entry = &loaded[k];
            assert(entry.1.deep_view() =~= entry.1@);
            insert_font_data(fonts, &entry.0, &entry.1);
            k = k + 1;
        }

        self.link_font(fonts, new_font.clone());
        self.exact_font = new_font.clone();
        self.regular = new_font;
    }
}

/// One button of the variant grid: its label, the font it switches to,
/// whether it shows as the current choice, and the column it lands in.
pub struct VariantButton {
    /// The text on the button: a variant name, or `Regular`.
    pub label: String,
    /// The PostScript name the button selects.
    pub font_name: String,
    /// Whether the button stands for the font currently shown.
    pub highlighted: bool,
    /// The index of the layout column the button goes into.
    pub column: usize,
}

/// The mathematical image of a `VariantButton`.
pub ghost struct VariantButtonView {
    pub label: Seq<char>,
    pub font_name: Seq<char>,
    pub highlighted: bool,
    pub column: int,
}

impl View for VariantButton {
    type V = VariantButtonView;

    open spec fn view(&self) -> VariantButtonView {
        VariantButtonView {
            label: self.label@,
            font_name: self.font_name@,
            highlighted: self.highlighted,
            column: self.column as int,
        }
    }
}

impl DeepView for VariantButton {
    type V = VariantButtonView;

    open spec fn deep_view(&self) -> VariantButtonView {
        self.view()
    }
}

/// The variant row after the first `k` names: the buttons so far, how many
/// there are, and whether a regular variant was seen and skipped. Regular
/// names get no button of their own; every other name gets one, labelled
/// with its variant part, highlighted when it is the shown font, and placed
/// round-robin in columns `1 ..= ncu`.
pub open spec fn variant_row(
    names: Seq<Seq<char>>,
    k: int,
    selected: Seq<char>,
    exact: Seq<char>,
    ncu: int,
) -> (Seq<VariantButtonView>, int, bool)
    recommends
        k <= names.len(),
        1 <= ncu,
    decreases k,
{
    if k <= 0 {
        (Seq::empty(), 0, false)
    } else {
        let (btns, i, has_regular) = variant_row(names, k - 1, selected, exact, ncu);
        let name = names[k - 1];
        if is_regular_name(name, selected) {
            (btns, i, true)
        } else {
            (
                btns.push(
                    VariantButtonView {
                        label: variance_of(name),
                        font_name: name,
                        highlighted: name == exact,
                        column: i % ncu + 1,
                    },
                ),
                i + 1,
                has_regular,
            )
        }
    }
}

/// The full variant grid for a family: the row of non-regular variants,
/// closed by a `Regular` button when the row is not empty and the family
/// has a regular variant to go back to.
pub open spec fn variant_buttons_of(
    names: Seq<Seq<char>>,
    selected: Seq<char>,
    exact: Seq<char>,
    regular: Seq<char>,
    ncu: int,
) -> Seq<VariantButtonView>
    recommends
        1 <= ncu,
{
    let (btns, i, has_regular) = variant_row(names, names.len() as int, selected, exact, ncu);
    if i != 0 && has_regular {
        btns.push(
            VariantButtonView {
                label: "Regular"@,
                font_name: regular,
                highlighted: is_regular_name(exact, selected),
                column: i % ncu + 1,
            },
        )
    } else {
        btns
    }
}

/// Every button of the row sits in a usable column, and the count matches.
proof fn lemma_variant_row_bounds(
    names: Seq<Seq<char>>,
    k: int,
    selected: Seq<char>,
    exact: Seq<char>,
    ncu: int,
)
    requires
        0 <= k <= names.len(),
        1 <= ncu,
    ensures
        ({
            let (btns, i, has_regular) = variant_row(names, k, selected, exact, ncu);
            0 <= i <= k && btns.len() == i && (forall|j: int|
                0 <= j < btns.len() ==> 1 <= #[trigger] btns[j].column <= ncu)
        }),
    decreases k,
{
    if k > 0 {
        lemma_variant_row_bounds(names, k - 1, selected, exact, ncu);
    }
}

impl Panel {
    /// The variant grid of the selected family, given the PostScript names
    /// of its fonts. Each button lands in a column numbered from one up to
    /// `num_col_use`, which the layout keeps below `num_columns`.
    pub fn variant_buttons(&self, names: &Vec<String>) -> (r: Vec<VariantButton>)
        requires
            self.wf(),
        ensures
            r.deep_view() == variant_buttons_of(
                names.deep_view(),
                self.selected@,
                self.exact_font@,
                self.regular@,
                self.num_col_use as int,
            ),
            forall|j: int|
                0 <= j < r@.len() ==> 1 <= #[trigger] r.deep_view()[j].column
                    <= self.num_col_use,
    {
        let ghost name_views = names.deep_view();
        let ghost ncu = self.num_col_use as int;
        let mut out: Vec<VariantButton> = Vec::new();
        let mut i: usize = 0;
        let mut has_regular: bool = false;
        let mut k: usize = 0;
        while k < names.len()
            invariant
                k <= names@.len(),
                name_views == names.deep_view(),
                ncu == self.num_col_use as int,
                self.wf(),
                out.deep_view() == variant_row(name_views, k as int, self.selected@,
                    self.exact_font@, ncu).0,
                i as int == variant_row(name_views, k as int, self.selected@, self.exact_font@,
                    ncu).1,
                has_regular == variant_row(name_views, k as int, self.selected@,
                    self.exact_font@, ncu).2,
            decreases names@.len() - k,
        {
            proof {
                lemma_variant_row_bounds(name_views, k as int, self.selected@, self.exact_font@,
                    ncu);
            }
            let name = &names[k];
            if self.is_regular(name.as_str()) {
                has_regular = true;
            } else {
                let ghost old_out = out.deep_view();
                let var = variance(name.as_str());
                let highlighted = *name == self.exact_font;
                let button = VariantButton {
                    label: var,
                    font_name: name.clone(),
                    highlighted,
                    column: i % self.num_col_use + 1,
                };
                out.push(button);
                assert(out.deep_view() =~= old_out.push(button@));
                i = i + 1;
            }
            k = k + 1;
        }
        proof {
            lemma_variant_row_bounds(name_views, names@.len() as int, self.selected@,
                self.exact_font@, ncu);
        }
        if i != 0 && has_regular {
            let ghost old_out = out.deep_view();
            let highlighted = self.is_regular(self.exact_font.as_str());
            let button = VariantButton {
                label: "Regular".to_owned(),
                font_name: self.regular.clone(),
                highlighted,
                column: i % self.num_col_use + 1,
            };
            out.push(button);
            assert(out.deep_view() =~= old_out.push(button@));
        }
        out
    }
}

} // verus!
