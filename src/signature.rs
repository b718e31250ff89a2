//! The signature model: identifiers, classifications, and their text forms.

use vstd::prelude::*;

verus! {

/// Remaining lifetime of a wormhole connection.
#[derive(Debug, Clone, Copy, PartialEq, Eq)]
pub enum WormholeLife {
    Stable,
    EndOfLife,
}

/// Remaining mass allowance of a wormhole connection.
#[derive(Debug, Clone, Copy, PartialEq, Eq)]
pub enum WormholeMass {
    Stable,
    Destab,
    Critical,
}

pub open spec fn life_text(l: WormholeLife) -> Seq<char> {
    match l {
        WormholeLife::Stable => "Stable"@,
        WormholeLife::EndOfLife => "EOL"@,
    }
}

pub open spec fn mass_text(m: WormholeMass) -> Seq<char> {
    match m {
        WormholeMass::Stable => "Stable"@,
        WormholeMass::Destab => "Destab"@,
        WormholeMass::Critical => "Critical"@,
    }
}

impl WormholeLife {
    pub fn as_str(&self) -> (r: &'static str)
        ensures
            r@ == life_text(*self),
    {
        match self {
            WormholeLife::Stable => "Stable",
            WormholeLife::EndOfLife => "EOL",
        }
    }
}

impl WormholeMass {
    pub fn as_str(&self) -> (r: &'static str)
        ensures
            r@ == mass_text(*self),
    {
        match self {
            WormholeMass::Stable => "Stable",
            WormholeMass::Destab => "Destab",
            WormholeMass::Critical => "Critical",
        }
    }
}

/// The label of a signature: a group code and a number, such as `ABC` and `123`.
#[derive(Debug, Clone, PartialEq)]
pub struct SignatureId {
    pub id: String,
    pub number: String,
}

/// What a `SignatureId` holds, as character sequences.
pub struct SignatureIdView {
    pub id: Seq<char>,
    pub number: Seq<char>,
}

impl SignatureIdView {
    /// The displayed form, group and number joined by a dash.
    pub open spec fn text(self) -> Seq<char> {
        self.id + "-"@ + self.number
    }
}

impl View for SignatureId {
    type V = SignatureIdView;

    open spec fn view(&self) -> SignatureIdView {
        SignatureIdView { id: self.id@, number: self.number@ }
    }
}

impl SignatureId {
    pub fn new(id: &str, number: &str) -> (r: Self)
        ensures
            r@ == (SignatureIdView { id: id@, number: number@ }),
    {
        SignatureId { id: id.to_owned(), number: number.to_owned() }
    }

    pub fn copy(&self) -> (r: Self)
        ensures
            r == *self,
    {
        SignatureId { id: self.id.clone(), number: self.number.clone() }
    }

    /// Whether both labels have the same group and the same number.
    pub fn same_as(&self, other: &SignatureId) -> (r: bool)
        ensures
            r == (self@ == other@),
    {
        self.id == other.id && self.number == other.number
    }

    pub fn to_string(&self) -> (r: String)
        ensures
            r@ == self@.text(),
    {
        let mut r = self.id.clone();
        r.append("-");
        r.append(self.number.as_str());
        r
    }
}

pub open spec fn name_view(n: Option<String>) -> Option<Seq<char>> {
    match n {
        Some(s) => Some(s@),
        None => None,
    }
}

pub fn copy_name(n: &Option<String>) -> (r: Option<String>)
    ensures
        r == *n,
{
    match n {
        Some(s) => Some(s.clone()),
        None => None,
    }
}

/// What is known of a wormhole: its type code, where it leads, and its decay.
#[derive(Debug, Clone, PartialEq)]
pub struct SignatureWormhole {
    pub wh_type: Option<String>,
    pub destination: Option<String>,
    pub life: WormholeLife,
    pub mass: WormholeMass,
}

pub struct WormholeView {
    pub wh_type: Option<Seq<char>>,
    pub destination: Option<Seq<char>>,
    pub life: WormholeLife,
    pub mass: WormholeMass,
}

/// A wormhole of which nothing is known yet: no type, no destination, stable.
pub open spec fn fresh_wormhole() -> WormholeView {
    WormholeView {
        wh_type: None,
        destination: None,
        life: WormholeLife::Stable,
        mass: WormholeMass::Stable,
    }
}

impl View for SignatureWormhole {
    type V = WormholeView;

    open spec fn view(&self) -> WormholeView {
        WormholeView {
            wh_type: name_view(self.wh_type),
            destination: name_view(self.destination),
            life: self.life,
            mass: self.mass,
        }
    }
}

impl Default for SignatureWormhole {
    fn default() -> (r: Self)
        ensures
            r@ == fresh_wormhole(),
    {
        SignatureWormhole {
            wh_type: None,
            destination: None,
            life: WormholeLife::Stable,
            mass: WormholeMass::Stable,
        }
    }
}

impl SignatureWormhole {
    pub fn new(
        wh_type: Option<String>,
        destination: Option<String>,
        life: WormholeLife,
        mass: WormholeMass,
    ) -> (r: Self)
        ensures
            r == (SignatureWormhole { wh_type, destination, life, mass }),
    {
        SignatureWormhole { wh_type, destination, life, mass }
    }

    pub fn copy(&self) -> (r: Self)
        ensures
            r == *self,
    {
        SignatureWormhole {
            wh_type: copy_name(&self.wh_type),
            destination: copy_name(&self.destination),
            life: self.life,
            mass: self.mass,
        }
    }
}

/// The classification of a signature; the site variants carry an optional site name.
#[derive(Debug, Clone, PartialEq)]
pub enum SignatureType {
    Unknown,
    Combat(Option<String>),
    Wormhole(SignatureWormhole),
    Ore(Option<String>),
    Data(Option<String>),
    Relic(Option<String>),
    Gas(Option<String>),
}

pub enum SignatureTypeView {
    Unknown,
    Combat(Option<Seq<char>>),
    Wormhole(WormholeView),
    Ore(Option<Seq<char>>),
    Data(Option<Seq<char>>),
    Relic(Option<Seq<char>>),
    Gas(Option<Seq<char>>),
}

impl SignatureTypeView {
    /// A wormhole always counts as named; a site does when its name is known.
    pub open spec fn has_name(self) -> bool {
        match self {
            SignatureTypeView::Unknown => false,
            SignatureTypeView::Wormhole(_) => true,
            SignatureTypeView::Combat(n) => n is Some,
            SignatureTypeView::Ore(n) => n is Some,
            SignatureTypeView::Data(n) => n is Some,
            SignatureTypeView::Relic(n) => n is Some,
            SignatureTypeView::Gas(n) => n is Some,
        }
    }

    /// The one-line rendering used in the signature list.
    pub open spec fn text(self) -> Seq<char> {
        match self {
            SignatureTypeView::Unknown => "Unknown"@,
            SignatureTypeView::Combat(n) => named_text("Combat   "@, "Combat"@, n),
            SignatureTypeView::Wormhole(w) => "WH       "@ + or_question(w.wh_type) + " -> "@
                + or_question(w.destination) + "      "@ + life_text(w.life) + "      "@
                + mass_text(w.mass),
            SignatureTypeView::Ore(n) => named_text("Ore      "@, "Ore"@, n),
            SignatureTypeView::Data(n) => named_text("Data     "@, "Data"@, n),
            SignatureTypeView::Relic(n) => named_text("Relic    "@, "Relic"@, n),
            SignatureTypeView::Gas(n) => named_text("Gas      "@, "Gas"@, n),
        }
    }
}

pub open spec fn named_text(
    prefix: Seq<char>,
    bare: Seq<char>,
    n: Option<Seq<char>>,
) -> Seq<char> {
    match n {
        Some(s) => prefix + s,
        None => bare,
    }
}

pub open spec fn or_question(n: Option<Seq<char>>) -> Seq<char> {
    match n {
        Some(s) => s,
        None => "?"@,
    }
}

impl View for SignatureType {
    type V = SignatureTypeView;

    open spec fn view(&self) -> SignatureTypeView {
        match self {
            SignatureType::Unknown => SignatureTypeView::Unknown,
            SignatureType::Combat(n) => SignatureTypeView::Combat(name_view(*n)),
            SignatureType::Wormhole(w) => SignatureTypeView::Wormhole(w@),
            SignatureType::Ore(n) => SignatureTypeView::Ore(name_view(*n)),
            SignatureType::Data(n) => SignatureTypeView::Data(name_view(*n)),
            SignatureType::Relic(n) => SignatureTypeView::Relic(name_view(*n)),
            SignatureType::Gas(n) => SignatureTypeView::Gas(name_view(*n)),
        }
    }
}

impl Default for SignatureType {
    fn default() -> (r: Self)
        ensures
            r@ == SignatureTypeView::Unknown,
    {
        SignatureType::Unknown
    }
}

fn text_or(n: &Option<String>, fallback: &str) -> (r: String)
    ensures
        r@ == (match name_view(*n) {
            Some(s) => s,
            None => fallback@,
        }),
{
    match n {
        Some(s) => s.clone(),
        None => fallback.to_owned(),
    }
}

fn named_string(prefix: &str, bare: &str, n: &Option<String>) -> (r: String)
    ensures
        r@ == named_text(prefix@, bare@, name_view(*n)),
{
    match n {
        Some(s) => {
            let mut r = prefix.to_owned();
            r.append(s.as_str());
            r
        },
        None => bare.to_owned(),
    }
}

impl SignatureType {
    pub fn has_name(&self) -> (r: bool)
        ensures
            r == self@.has_name(),
    {
        match self {
            SignatureType::Unknown => false,
            SignatureType::Wormhole(_) => true,
            SignatureType::Combat(name)
            | SignatureType::Ore(name)
            | SignatureType::Data(name)
            | SignatureType::Relic(name)
            | SignatureType::Gas(name) => name.is_some(),
        }
    }

    pub fn copy(&self) -> (r: Self)
        ensures
            r == *self,
    {
        match self {
            SignatureType::Unknown => SignatureType::Unknown,
            SignatureType::Combat(n) => SignatureType::Combat(copy_name(n)),
            SignatureType::Wormhole(w) => SignatureType::Wormhole(w.copy()),
            SignatureType::Ore(n) => SignatureType::Ore(copy_name(n)),
            SignatureType::Data(n) => SignatureType::Data(copy_name(n)),
            SignatureType::Relic(n) => SignatureType::Relic(copy_name(n)),
            SignatureType::Gas(n) => SignatureType::Gas(copy_name(n)),
        }
    }

    pub fn to_string(&self) -> (r: String)
        ensures
            r@ == self@.text(),
    {
        match self {
            SignatureType::Unknown => "Unknown".to_owned(),
            SignatureType::Combat(n) => named_string("Combat   ", "Combat", n),
            SignatureType::Wormhole(w) => {
                let mut r = "WH       ".to_owned();
                let wh_type = text_or(&w.wh_type, "?");
                r.append(wh_type.as_str());
                r.append(" -> ");
                let destination = text_or(&w.destination, "?");
                r.append(destination.as_str());
                r.append("      ");
                r.append(w.life.as_str());
                r.append("      ");
                r.append(w.mass.as_str());
                r
            },
            SignatureType::Ore(n) => named_string("Ore      ", "Ore", n),
            SignatureType::Data(n) => named_string("Data     ", "Data", n),
            SignatureType::Relic(n) => named_string("Relic    ", "Relic", n),
            SignatureType::Gas(n) => named_string("Gas      ", "Gas", n),
        }
    }
}

/// A scannable point of interest in space.
#[derive(Debug, Clone, PartialEq)]
pub struct Signature {
    pub identifier: SignatureId,
    pub signature_type: SignatureType,
}

pub struct SignatureView {
    pub identifier: SignatureIdView,
    pub signature_type: SignatureTypeView,
}

impl View for Signature {
    type V = SignatureView;

    open spec fn view(&self) -> SignatureView {
        SignatureView { identifier: self.identifier@, signature_type: self.signature_type@ }
    }
}

impl SignatureView {
    pub open spec fn text(self) -> Seq<char> {
        self.identifier.text() + "      "@ + self.signature_type.text()
    }

    /// The four columns of the signature table: label, kind, name or
    /// destination, and for a wormhole its life and mass.
    pub open spec fn row(self) -> Seq<Seq<char>> {
        let id = self.identifier.text();
        match self.signature_type {
            SignatureTypeView::Unknown => seq![id, "Unknown"@, Seq::empty(), Seq::empty()],
            SignatureTypeView::Wormhole(w) => seq![
                id,
                "Wormhole"@,
                match w.destination {
                    Some(d) => d,
                    None => Seq::empty(),
                },
                life_text(w.life) + "/"@ + mass_text(w.mass),
            ],
            SignatureTypeView::Combat(n) => seq![id, "Combat"@, or_question(n), Seq::empty()],
            SignatureTypeView::Ore(n) => seq![id, "Ore"@, or_question(n), Seq::empty()],
            SignatureTypeView::Data(n) => seq![id, "Data"@, or_question(n), Seq::empty()],
            SignatureTypeView::Relic(n) => seq![id, "Relic"@, or_question(n), Seq::empty()],
            SignatureTypeView::Gas(n) => seq![id, "Gas"@, or_question(n), Seq::empty()],
        }
    }
}

pub open spec fn strings_view(v: Seq<String>) -> Seq<Seq<char>> {
    v.map_values(|s: String| s@)
}

fn site_row(id: String, kind: &str, n: &Option<String>) -> (r: Vec<String>)
    ensures
        strings_view(r@) == seq![id@, kind@, or_question(name_view(*n)), Seq::<char>::empty()],
{
    let name = text_or(n, "?");
    let r = vec![id, kind.to_owned(), name, String::new()];
    assert(strings_view(r@) =~= seq![id@, kind@, or_question(name_view(*n)), Seq::<char>::empty()]);
    r
}

impl Signature {
    /// A signature with an empty label, not yet classified.
    pub open spec fn blank_view() -> SignatureView {
        SignatureView {
            identifier: SignatureIdView { id: Seq::empty(), number: Seq::empty() },
            signature_type: SignatureTypeView::Unknown,
        }
    }
}

impl Default for Signature {
    fn default() -> (r: Self)
        ensures
            r@ == Signature::blank_view(),
    {
        Signature {
            identifier: SignatureId { id: String::new(), number: String::new() },
            signature_type: SignatureType::Unknown,
        }
    }
}

impl Signature {
    pub fn new(id: &str, number: &str, ty: SignatureType) -> (r: Self)
        ensures
            r.identifier@ == (SignatureIdView { id: id@, number: number@ }),
            r.signature_type == ty,
    {
        Signature { identifier: SignatureId::new(id, number), signature_type: ty }
    }

    pub fn copy(&self) -> (r: Self)
        ensures
            r == *self,
    {
        Signature { identifier: self.identifier.copy(), signature_type: self.signature_type.copy() }
    }

    pub fn to_string(&self) -> (r: String)
        ensures
            r@ == self@.text(),
    {
        let mut r = self.identifier.to_string();
        r.append("      ");
        let ty = self.signature_type.to_string();
        r.append(ty.as_str());
        r
    }

    pub fn to_row(&self) -> (r: Vec<String>)
        ensures
            strings_view(r@) == self@.row(),
    {
        let id = self.identifier.to_string();
        match &self.signature_type {
            SignatureType::Unknown => {
                let r = vec![id, "Unknown".to_owned(), String::new(), String::new()];
                assert(strings_view(r@) =~= self@.row());
                r
            },
            SignatureType::Wormhole(data) => {
                let destination = match &data.destination {
                    Some(d) => d.clone(),
                    None => String::new(),
                };
                let mut life_and_mass = data.life.as_str().to_owned();
                life_and_mass.append("/");
                life_and_mass.append(data.mass.as_str());
                let r = vec![id, "Wormhole".to_owned(), destination, life_and_mass];
                assert(strings_view(r@) =~= self@.row());
                r
            },
            SignatureType::Combat(n) => site_row(id, "Combat", n),
            SignatureType::Ore(n) => site_row(id, "Ore", n),
            SignatureType::Data(n) => site_row(id, "Data", n),
            SignatureType::Relic(n) => site_row(id, "Relic", n),
            SignatureType::Gas(n) => site_row(id, "Gas", n),
        }
    }
}

} // verus!
