//! The solver option model: named, typed tunables and their containers.
//!
//! Every tunable has a canonical, process-wide unique name string; the
//! name-addressable [`OdeOptionMap`] is the dynamic, solver-agnostic
//! exchange format, and [`AdaptiveOptions`] is the statically typed set a
//! stepper reads directly, with fallible conversions in both directions.

use vstd::prelude::*;
use crate::decimal::{push_decimal, spec_dec};
use crate::rational::{spec_rational_display, Rational};

verus! {

/// An option kind with a canonical name.
pub trait OdeOp {
    /// The canonical name, as a mathematical string.
    spec fn spec_option_name() -> Seq<char>;

    /// The canonical, stable, process-wide unique name of the option.
    fn option_name() -> (r: &'static str)
        ensures
            r@ == Self::spec_option_name(),
    ;
}

/// Controls which points of an integration run are reported.
#[derive(Debug, PartialEq)]
pub enum Points {
    /// Output is given for each value in the target time sequence, as
    /// well as for each intermediate point the solver used.
    All,
    /// Output is given only for the requested values of the target time
    /// sequence; the vector holds the indexes of the requested values.
    Specified(Vec<usize>),
}

/// The mathematical content of a [`Points`] value.
pub enum PointsView {
    All,
    Specified(Seq<usize>),
}

impl View for Points {
    type V = PointsView;

    open spec fn view(&self) -> PointsView {
        match self {
            Points::All => PointsView::All,
            Points::Specified(v) => PointsView::Specified(v@),
        }
    }
}

impl Clone for Points {
    fn clone(&self) -> (r: Self)
        ensures
            r@ == self@,
    {
        match self {
            Points::All => Points::All,
            Points::Specified(v) => {
                let w = v.clone();
                proof {
                    assert(w@ =~= v@);
                }
                Points::Specified(w)
            },
        }
    }
}

impl Default for Points {
    fn default() -> (r: Self)
        ensures
            r == Points::All,
    {
        Points::All
    }
}

/// The comma-delimited rendering of an index list, e.g. `0, 2, 5`.
pub open spec fn spec_comma_delimited(s: Seq<usize>) -> Seq<char>
    decreases s.len(),
{
    if s.len() == 0 {
        Seq::<char>::empty()
    } else if s.len() == 1 {
        spec_dec(s[0] as nat)
    } else {
        spec_comma_delimited(s.drop_last()) + ", "@ + spec_dec(s.last() as nat)
    }
}

/// Renders a list of indexes separated by commas.
pub fn fmt_comma_delimited(parts: &Vec<usize>) -> (r: String)
    ensures
        r@ == spec_comma_delimited(parts@),
{
    let mut s = String::new();
    let mut i: usize = 0;
    while i < parts.len()
        invariant
            i <= parts@.len(),
            s@ == spec_comma_delimited(parts@.take(i as int)),
        decreases parts@.len() - i,
    {
        if i > 0 {
            s.append(", ");
        }
        let part = parts[i];
        push_decimal(&mut s, part as u64);
        proof {
            assert(parts@.take(i + 1).drop_last() =~= parts@.take(i as int));
            assert(parts@.take(i + 1).last() == parts@[i as int]);
            if i == 0 {
                assert(parts@.take(1)[0] == parts@[0]);
            }
        }
        i = i + 1;
    }
    proof {
        assert(parts@.take(parts@.len() as int) =~= parts@);
    }
    s
}

/// The rendering of a [`Points`] value, e.g. `Points: [0, 2, 5]` or
/// `Points: All`.
pub open spec fn spec_points_display(v: PointsView) -> Seq<char> {
    match v {
        PointsView::All => "Points: "@ + "All"@,
        PointsView::Specified(s) => "Points: "@ + "["@ + spec_comma_delimited(s) + "]"@,
    }
}

impl Points {
    /// Renders the value, e.g. `Points: [0, 2, 5]` or `Points: All`.
    pub fn display_string(&self) -> (r: String)
        ensures
            r@ == spec_points_display(self@),
    {
        let mut s = String::new();
        s.append("Points: ");
        match self {
            Points::All => {
                s.append("All");
            },
            Points::Specified(v) => {
                s.append("[");
                let inner = fmt_comma_delimited(v);
                s.append(inner.as_str());
                s.append("]");
            },
        }
        s
    }
}

/// Renders a bare unsigned payload in decimal.
fn decimal_string(n: usize) -> (r: String)
    ensures
        r@ == spec_dec(n as nat),
{
    let mut s = String::new();
    proof {
        assert((n as u64) as nat == n as nat);
    }
    push_decimal(&mut s, n as u64);
    s
}

/// User-defined norm coefficient for determining the error.
#[derive(Clone, Copy, Debug, PartialEq)]
pub struct Norm(pub Rational);

/// An integration step is accepted if the error is at most
/// `reltol * |y|`.
#[derive(Clone, Copy, Debug, PartialEq)]
pub struct Reltol(pub Rational);

/// An integration step is accepted if the error is at most `abstol`.
#[derive(Clone, Copy, Debug, PartialEq)]
pub struct Abstol(pub Rational);

/// Minimal integration step.
#[derive(Clone, Copy, Debug, PartialEq)]
pub struct Minstep(pub usize);

/// Maximal integration step.
#[derive(Clone, Copy, Debug, PartialEq)]
pub struct Maxstep(pub usize);

/// Initial integration step.
#[derive(Clone, Copy, Debug, PartialEq)]
pub struct Initstep(pub usize);

/// Controls the type of output.
#[derive(Debug, PartialEq)]
pub struct OutputPoints(pub Points);

/// A step can leave the region where the system has a valid solution;
/// this bounds how many times the solver retries with a smaller step.
#[derive(Clone, Copy, Debug, PartialEq)]
pub struct Retries(pub usize);

impl Clone for OutputPoints {
    fn clone(&self) -> (r: Self)
        ensures
            r.0@ == self.0@,
    {
        OutputPoints(self.0.clone())
    }
}

impl Default for Reltol {
    fn default() -> (r: Self)
        ensures
            r == Reltol(Rational { num: 1, den: 100000 }),
    {
        Reltol(Rational::new(1, 100000))
    }
}

impl Default for Abstol {
    fn default() -> (r: Self)
        ensures
            r == Abstol(Rational { num: 1, den: 100000000 }),
    {
        Abstol(Rational::new(1, 100000000))
    }
}

impl Default for Retries {
    fn default() -> (r: Self)
        ensures
            r == Retries(0),
    {
        Retries(0)
    }
}

impl OdeOp for Norm {
    open spec fn spec_option_name() -> Seq<char> {
        "Norm"@
    }

    fn option_name() -> (r: &'static str) {
        "Norm"
    }
}

impl OdeOp for Reltol {
    open spec fn spec_option_name() -> Seq<char> {
        "Reltol"@
    }

    fn option_name() -> (r: &'static str) {
        "Reltol"
    }
}

impl OdeOp for Abstol {
    open spec fn spec_option_name() -> Seq<char> {
        "Abstol"@
    }

    fn option_name() -> (r: &'static str) {
        "Abstol"
    }
}

impl OdeOp for Minstep {
    open spec fn spec_option_name() -> Seq<char> {
        "Minstep"@
    }

    fn option_name() -> (r: &'static str) {
        "Minstep"
    }
}

impl OdeOp for Maxstep {
    open spec fn spec_option_name() -> Seq<char> {
        "Maxstep"@
    }

    fn option_name() -> (r: &'static str) {
        "Maxstep"
    }
}

impl OdeOp for Initstep {
    open spec fn spec_option_name() -> Seq<char> {
        "Initstep"@
    }

    fn option_name() -> (r: &'static str) {
        "Initstep"
    }
}

impl OdeOp for OutputPoints {
    open spec fn spec_option_name() -> Seq<char> {
        "Points"@
    }

    fn option_name() -> (r: &'static str) {
        "Points"
    }
}

impl OdeOp for Retries {
    open spec fn spec_option_name() -> Seq<char> {
        "Retries"@
    }

    fn option_name() -> (r: &'static str) {
        "Retries"
    }
}

impl Norm {
    /// Renders the payload.
    pub fn display_string(&self) -> (r: String)
        ensures
            r@ == spec_rational_display(self.0),
    {
        self.0.display_string()
    }
}

impl Reltol {
    /// Renders the payload.
    pub fn display_string(&self) -> (r: String)
        ensures
            r@ == spec_rational_display(self.0),
    {
        self.0.display_string()
    }
}

impl Abstol {
    /// Renders the payload.
    pub fn display_string(&self) -> (r: String)
        ensures
            r@ == spec_rational_display(self.0),
    {
        self.0.display_string()
    }
}

impl Minstep {
    /// Renders the payload.
    pub fn display_string(&self) -> (r: String)
        ensures
            r@ == spec_dec(self.0 as nat),
    {
        decimal_string(self.0)
    }
}

impl Maxstep {
    /// Renders the payload.
    pub fn display_string(&self) -> (r: String)
        ensures
            r@ == spec_dec(self.0 as nat),
    {
        decimal_string(self.0)
    }
}

impl Initstep {
    /// Renders the payload.
    pub fn display_string(&self) -> (r: String)
        ensures
            r@ == spec_dec(self.0 as nat),
    {
        decimal_string(self.0)
    }
}

impl OutputPoints {
    /// Renders the payload.
    pub fn display_string(&self) -> (r: String)
        ensures
            r@ == spec_points_display(self.0@),
    {
        self.0.display_string()
    }
}

impl Retries {
    /// Renders the payload.
    pub fn display_string(&self) -> (r: String)
        ensures
            r@ == spec_dec(self.0 as nat),
    {
        decimal_string(self.0)
    }
}

/// The closed set of canonical option names, the keys of the dynamic map.
#[derive(Clone, Copy, Debug, PartialEq, Eq, Structural)]
pub enum OdeName {
    Norm,
    Reltol,
    Abstol,
    Minstep,
    Maxstep,
    Initstep,
    Points,
    Retries,
}

impl OdeName {
    /// The canonical name string of this key.
    pub open spec fn spec_name(self) -> Seq<char> {
        match self {
            OdeName::Norm => "Norm"@,
            OdeName::Reltol => "Reltol"@,
            OdeName::Abstol => "Abstol"@,
            OdeName::Minstep => "Minstep"@,
            OdeName::Maxstep => "Maxstep"@,
            OdeName::Initstep => "Initstep"@,
            OdeName::Points => "Points"@,
            OdeName::Retries => "Retries"@,
        }
    }

    /// The canonical name string of this key.
    pub fn canonical_name(self) -> (r: &'static str)
        ensures
            r@ == self.spec_name(),
    {
        match self {
            OdeName::Norm => "Norm",
            OdeName::Reltol => "Reltol",
            OdeName::Abstol => "Abstol",
            OdeName::Minstep => "Minstep",
            OdeName::Maxstep => "Maxstep",
            OdeName::Initstep => "Initstep",
            OdeName::Points => "Points",
            OdeName::Retries => "Retries",
        }
    }

    /// Looks a canonical name string up; unrecognized names yield `None`.
    pub fn from_name(name: &str) -> (r: Option<OdeName>)
        ensures
            match r {
                Some(k) => name@ == k.spec_name(),
                None => !(exists|k: OdeName| name@ == k.spec_name()),
            },
    {
        let owned: String = name.to_owned();
        if owned == "Norm".to_owned() {
            Some(OdeName::Norm)
        } else if owned == "Reltol".to_owned() {
            Some(OdeName::Reltol)
        } else if owned == "Abstol".to_owned() {
            Some(OdeName::Abstol)
        } else if owned == "Minstep".to_owned() {
            Some(OdeName::Minstep)
        } else if owned == "Maxstep".to_owned() {
            Some(OdeName::Maxstep)
        } else if owned == "Initstep".to_owned() {
            Some(OdeName::Initstep)
        } else if owned == "Points".to_owned() {
            Some(OdeName::Points)
        } else if owned == "Retries".to_owned() {
            Some(OdeName::Retries)
        } else {
            None
        }
    }
}

/// A tagged option value: one variant per recognized tunable, each
/// carrying its typed payload.
#[derive(Debug, PartialEq)]
pub enum OdeOption {
    Norm(Rational),
    Reltol(Rational),
    Abstol(Rational),
    Minstep(usize),
    Maxstep(usize),
    Initstep(usize),
    OutputPoints(Points),
    Retries(usize),
}

/// The canonical name key a given option value belongs under.
pub open spec fn kind_of(o: OdeOption) -> OdeName {
    match o {
        OdeOption::Norm(_) => OdeName::Norm,
        OdeOption::Reltol(_) => OdeName::Reltol,
        OdeOption::Abstol(_) => OdeName::Abstol,
        OdeOption::Minstep(_) => OdeName::Minstep,
        OdeOption::Maxstep(_) => OdeName::Maxstep,
        OdeOption::Initstep(_) => OdeName::Initstep,
        OdeOption::OutputPoints(_) => OdeName::Points,
        OdeOption::Retries(_) => OdeName::Retries,
    }
}

/// The rendering of an option's payload.
pub open spec fn spec_option_display(o: OdeOption) -> Seq<char> {
    match o {
        OdeOption::Norm(x) => spec_rational_display(x),
        OdeOption::Reltol(x) => spec_rational_display(x),
        OdeOption::Abstol(x) => spec_rational_display(x),
        OdeOption::Minstep(u) => spec_dec(u as nat),
        OdeOption::Maxstep(u) => spec_dec(u as nat),
        OdeOption::Initstep(u) => spec_dec(u as nat),
        OdeOption::OutputPoints(p) => spec_points_display(p@),
        OdeOption::Retries(u) => spec_dec(u as nat),
    }
}

impl OdeOption {
    /// The canonical name key this value belongs under.
    pub fn kind(&self) -> (k: OdeName)
        ensures
            k == kind_of(*self),
    {
        match self {
            OdeOption::Norm(_) => OdeName::Norm,
            OdeOption::Reltol(_) => OdeName::Reltol,
            OdeOption::Abstol(_) => OdeName::Abstol,
            OdeOption::Minstep(_) => OdeName::Minstep,
            OdeOption::Maxstep(_) => OdeName::Maxstep,
            OdeOption::Initstep(_) => OdeName::Initstep,
            OdeOption::OutputPoints(_) => OdeName::Points,
            OdeOption::Retries(_) => OdeName::Retries,
        }
    }

    /// The canonical name string this value belongs under.
    pub fn canonical_name(&self) -> (r: &'static str)
        ensures
            r@ == kind_of(*self).spec_name(),
    {
        self.kind().canonical_name()
    }

    /// Renders the payload.
    pub fn display_string(&self) -> (r: String)
        ensures
            r@ == spec_option_display(*self),
    {
        match self {
            OdeOption::Norm(x) => x.display_string(),
            OdeOption::Reltol(x) => x.display_string(),
            OdeOption::Abstol(x) => x.display_string(),
            OdeOption::Minstep(u) => decimal_string(*u),
            OdeOption::Maxstep(u) => decimal_string(*u),
            OdeOption::Initstep(u) => decimal_string(*u),
            OdeOption::OutputPoints(p) => p.display_string(),
            OdeOption::Retries(u) => decimal_string(*u),
        }
    }
}

/// A mapping from canonical name to option value: the dynamic,
/// solver-agnostic configuration exchange format.  Keys are unique and
/// insertion order is irrelevant; the map may hold a value whose variant
/// kind does not belong under its name, which conversion to a typed
/// option set reports as an error.
#[derive(Debug)]
pub struct OdeOptionMap {
    norm: Option<OdeOption>,
    reltol: Option<OdeOption>,
    abstol: Option<OdeOption>,
    minstep: Option<OdeOption>,
    maxstep: Option<OdeOption>,
    initstep: Option<OdeOption>,
    points: Option<OdeOption>,
    retries: Option<OdeOption>,
}

impl OdeOptionMap {
    /// The slot a name is stored in.
    closed spec fn slot(&self, name: OdeName) -> Option<OdeOption> {
        match name {
            OdeName::Norm => self.norm,
            OdeName::Reltol => self.reltol,
            OdeName::Abstol => self.abstol,
            OdeName::Minstep => self.minstep,
            OdeName::Maxstep => self.maxstep,
            OdeName::Initstep => self.initstep,
            OdeName::Points => self.points,
            OdeName::Retries => self.retries,
        }
    }

    /// An empty map.
    pub fn new() -> (r: OdeOptionMap)
        ensures
            r@ == Map::<OdeName, OdeOption>::empty(),
    {
        let r = OdeOptionMap {
            norm: None,
            reltol: None,
            abstol: None,
            minstep: None,
            maxstep: None,
            initstep: None,
            points: None,
            retries: None,
        };
        proof {
            assert(r@ =~= Map::<OdeName, OdeOption>::empty());
        }
        r
    }

    /// Stores `value` under `name`, returning what the name held before.
    pub fn insert(&mut self, name: OdeName, value: OdeOption) -> (prev: Option<OdeOption>)
        ensures
            final(self)@ == old(self)@.insert(name, value),
            prev == (if old(self)@.contains_key(name) {
                Some(old(self)@[name])
            } else {
                None::<OdeOption>
            }),
    {
        let prev: Option<OdeOption> = match name {
            OdeName::Norm => {
                let p = self.norm.take();
                self.norm = Some(value);
                p
            },
            OdeName::Reltol => {
                let p = self.reltol.take();
                self.reltol = Some(value);
                p
            },
            OdeName::Abstol => {
                let p = self.abstol.take();
                self.abstol = Some(value);
                p
            },
            OdeName::Minstep => {
                let p = self.minstep.take();
                self.minstep = Some(value);
                p
            },
            OdeName::Maxstep => {
                let p = self.maxstep.take();
                self.maxstep = Some(value);
                p
            },
            OdeName::Initstep => {
                let p = self.initstep.take();
                self.initstep = Some(value);
                p
            },
            OdeName::Points => {
                let p = self.points.take();
                self.points = Some(value);
                p
            },
            OdeName::Retries => {
                let p = self.retries.take();
                self.retries = Some(value);
                p
            },
        };
        proof {
            assert(self@ =~= old(self)@.insert(name, value));
        }
        prev
    }

    /// Looks the value stored under `name` up.
    pub fn get(&self, name: OdeName) -> (r: Option<&OdeOption>)
        ensures
            match r {
                Some(v) => self@.contains_key(name) && *v == self@[name],
                None => !self@.contains_key(name),
            },
    {
        match name {
            OdeName::Norm => self.norm.as_ref(),
            OdeName::Reltol => self.reltol.as_ref(),
            OdeName::Abstol => self.abstol.as_ref(),
            OdeName::Minstep => self.minstep.as_ref(),
            OdeName::Maxstep => self.maxstep.as_ref(),
            OdeName::Initstep => self.initstep.as_ref(),
            OdeName::Points => self.points.as_ref(),
            OdeName::Retries => self.retries.as_ref(),
        }
    }

    /// Removes and returns what `name` held.
    pub fn remove(&mut self, name: OdeName) -> (r: Option<OdeOption>)
        ensures
            final(self)@ == old(self)@.remove(name),
            r == (if old(self)@.contains_key(name) {
                Some(old(self)@[name])
            } else {
                None::<OdeOption>
            }),
    {
        let r: Option<OdeOption> = match name {
            OdeName::Norm => self.norm.take(),
            OdeName::Reltol => self.reltol.take(),
            OdeName::Abstol => self.abstol.take(),
            OdeName::Minstep => self.minstep.take(),
            OdeName::Maxstep => self.maxstep.take(),
            OdeName::Initstep => self.initstep.take(),
            OdeName::Points => self.points.take(),
            OdeName::Retries => self.retries.take(),
        };
        proof {
            assert(self@ =~= old(self)@.remove(name));
        }
        r
    }
}

impl View for OdeOptionMap {
    type V = Map<OdeName, OdeOption>;

    closed spec fn view(&self) -> Map<OdeName, OdeOption> {
        Map::new(|k: OdeName| self.slot(k) is Some, |k: OdeName| self.slot(k).unwrap())
    }
}

/// Why building a typed option set from configuration failed.
#[derive(Clone, Copy, Debug, PartialEq, Eq, Structural)]
pub enum ConfigError {
    /// A required field had no value and declares no default.
    MissingField(OdeName),
    /// A map entry's variant kind does not belong under its name.
    KindMismatch(OdeName),
}

/// The statically typed option set of an adaptive-step solver family:
/// the common tunables, all optional, plus the solver-specific `norm`
/// coefficient, which has no default and must be supplied.
///
/// An unset optional field resolves to its default, where one is
/// declared, at the accessor.
#[derive(Debug, PartialEq)]
pub struct AdaptiveOptions {
    pub reltol: Option<Reltol>,
    pub abstol: Option<Abstol>,
    pub minstep: Option<Minstep>,
    pub maxstep: Option<Maxstep>,
    pub initstep: Option<Initstep>,
    pub points: Option<OutputPoints>,
    pub retries: Option<Retries>,
    pub norm: Norm,
}

/// The first reason, in field order, why a map does not convert to an
/// [`AdaptiveOptions`]: a present entry whose variant kind does not
/// belong under its name, or a missing `Norm`.
pub open spec fn spec_first_error(m: Map<OdeName, OdeOption>) -> Option<ConfigError> {
    if m.contains_key(OdeName::Reltol) && !(m[OdeName::Reltol] is Reltol) {
        Some(ConfigError::KindMismatch(OdeName::Reltol))
    } else if m.contains_key(OdeName::Abstol) && !(m[OdeName::Abstol] is Abstol) {
        Some(ConfigError::KindMismatch(OdeName::Abstol))
    } else if m.contains_key(OdeName::Minstep) && !(m[OdeName::Minstep] is Minstep) {
        Some(ConfigError::KindMismatch(OdeName::Minstep))
    } else if m.contains_key(OdeName::Maxstep) && !(m[OdeName::Maxstep] is Maxstep) {
        Some(ConfigError::KindMismatch(OdeName::Maxstep))
    } else if m.contains_key(OdeName::Initstep) && !(m[OdeName::Initstep] is Initstep) {
        Some(ConfigError::KindMismatch(OdeName::Initstep))
    } else if m.contains_key(OdeName::Points) && !(m[OdeName::Points] is OutputPoints) {
        Some(ConfigError::KindMismatch(OdeName::Points))
    } else if m.contains_key(OdeName::Retries) && !(m[OdeName::Retries] is Retries) {
        Some(ConfigError::KindMismatch(OdeName::Retries))
    } else if m.contains_key(OdeName::Norm) && !(m[OdeName::Norm] is Norm) {
        Some(ConfigError::KindMismatch(OdeName::Norm))
    } else if !m.contains_key(OdeName::Norm) {
        Some(ConfigError::MissingField(OdeName::Norm))
    } else {
        None
    }
}

impl AdaptiveOptions {
    /// The relative tolerance; unset resolves to the default `1/100000`.
    pub fn reltol(&self) -> (r: Reltol)
        ensures
            r == (match self.reltol {
                Some(v) => v,
                None => Reltol(Rational { num: 1, den: 100000 }),
            }),
    {
        match self.reltol {
            Some(v) => v,
            None => Reltol::default(),
        }
    }

    /// The absolute tolerance; unset resolves to the default
    /// `1/100000000`.
    pub fn abstol(&self) -> (r: Abstol)
        ensures
            r == (match self.abstol {
                Some(v) => v,
                None => Abstol(Rational { num: 1, den: 100000000 }),
            }),
    {
        match self.abstol {
            Some(v) => v,
            None => Abstol::default(),
        }
    }

    /// The retry budget; unset resolves to the default `0`.
    pub fn retries(&self) -> (r: Retries)
        ensures
            r == (match self.retries {
                Some(v) => v,
                None => Retries(0),
            }),
    {
        match self.retries {
            Some(v) => v,
            None => Retries::default(),
        }
    }

    /// The output-point policy; unset resolves to the default
    /// [`Points::All`].
    pub fn points(&self) -> (r: OutputPoints)
        ensures
            match self.points {
                Some(v) => r.0@ == v.0@,
                None => r.0@ == PointsView::All,
            },
    {
        match &self.points {
            Some(v) => v.clone(),
            None => OutputPoints(Points::All),
        }
    }

    /// Builds the set from the dynamic map.  For every recognized field
    /// name: a present entry must carry the variant belonging under that
    /// name, else the conversion reports the mismatch; an absent optional
    /// entry stays unset; an absent `Norm`, which has no default, is a
    /// missing required field.
    pub fn from_map(map: &OdeOptionMap) -> (r: Result<AdaptiveOptions, ConfigError>)
        ensures
            r is Err <==> spec_first_error(map@) is Some,
            spec_first_error(map@) matches Some(e) ==> r == Err::<AdaptiveOptions, ConfigError>(e),
            r matches Ok(o) ==> {
                &&& (map@.contains_key(OdeName::Reltol) ==> (map@[OdeName::Reltol] matches
                    OdeOption::Reltol(x) && o.reltol == Some(Reltol(x))))
                &&& (!map@.contains_key(OdeName::Reltol) ==> o.reltol is None)
                &&& (map@.contains_key(OdeName::Abstol) ==> (map@[OdeName::Abstol] matches
                    OdeOption::Abstol(x) && o.abstol == Some(Abstol(x))))
                &&& (!map@.contains_key(OdeName::Abstol) ==> o.abstol is None)
                &&& (map@.contains_key(OdeName::Minstep) ==> (map@[OdeName::Minstep] matches
                    OdeOption::Minstep(x) && o.minstep == Some(Minstep(x))))
                &&& (!map@.contains_key(OdeName::Minstep) ==> o.minstep is None)
                &&& (map@.contains_key(OdeName::Maxstep) ==> (map@[OdeName::Maxstep] matches
                    OdeOption::Maxstep(x) && o.maxstep == Some(Maxstep(x))))
                &&& (!map@.contains_key(OdeName::Maxstep) ==> o.maxstep is None)
                &&& (map@.contains_key(OdeName::Initstep) ==> (map@[OdeName::Initstep] matches
                    OdeOption::Initstep(x) && o.initstep == Some(Initstep(x))))
                &&& (!map@.contains_key(OdeName::Initstep) ==> o.initstep is None)
                &&& (map@.contains_key(OdeName::Points) ==> (map@[OdeName::Points] matches
                    OdeOption::OutputPoints(p) && o.points matches Some(op) && op.0@ == p@))
                &&& (!map@.contains_key(OdeName::Points) ==> o.points is None)
                &&& (map@.contains_key(OdeName::Retries) ==> (map@[OdeName::Retries] matches
                    OdeOption::Retries(x) && o.retries == Some(Retries(x))))
                &&& (!map@.contains_key(OdeName::Retries) ==> o.retries is None)
                &&& map@[OdeName::Norm] matches OdeOption::Norm(x) && o.norm == Norm(x)
            },
    {
        let reltol: Option<Reltol> = match map.get(OdeName::Reltol) {
            None => None,
            Some(op) => match op {
                OdeOption::Reltol(x) => Some(Reltol(*x)),
                _ => {
                    return Err(ConfigError::KindMismatch(OdeName::Reltol));
                },
            },
        };
        let abstol: Option<Abstol> = match map.get(OdeName::Abstol) {
            None => None,
            Some(op) => match op {
                OdeOption::Abstol(x) => Some(Abstol(*x)),
                _ => {
                    return Err(ConfigError::KindMismatch(OdeName::Abstol));
                },
            },
        };
        let minstep: Option<Minstep> = match map.get(OdeName::Minstep) {
            None => None,
            Some(op) => match op {
                OdeOption::Minstep(x) => Some(Minstep(*x)),
                _ => {
                    return Err(ConfigError::KindMismatch(OdeName::Minstep));
                },
            },
        };
        let maxstep: Option<Maxstep> = match map.get(OdeName::Maxstep) {
            None => None,
            Some(op) => match op {
                OdeOption::Maxstep(x) => Some(Maxstep(*x)),
                _ => {
                    return Err(ConfigError::KindMismatch(OdeName::Maxstep));
                },
            },
        };
        let initstep: Option<Initstep> = match map.get(OdeName::Initstep) {
            None => None,
            Some(op) => match op {
                OdeOption::Initstep(x) => Some(Initstep(*x)),
                _ => {
                    return Err(ConfigError::KindMismatch(OdeName::Initstep));
                },
            },
        };
        let points: Option<OutputPoints> = match map.get(OdeName::Points) {
            None => None,
            Some(op) => match op {
                OdeOption::OutputPoints(p) => Some(OutputPoints(p.clone())),
                _ => {
                    return Err(ConfigError::KindMismatch(OdeName::Points));
                },
            },
        };
        let retries: Option<Retries> = match map.get(OdeName::Retries) {
            None => None,
            Some(op) => match op {
                OdeOption::Retries(x) => Some(Retries(*x)),
                _ => {
                    return Err(ConfigError::KindMismatch(OdeName::Retries));
                },
            },
        };
        let norm: Norm = match map.get(OdeName::Norm) {
            None => {
                return Err(ConfigError::MissingField(OdeName::Norm));
            },
            Some(op) => match op {
                OdeOption::Norm(x) => Norm(*x),
                _ => {
                    return Err(ConfigError::KindMismatch(OdeName::Norm));
                },
            },
        };
        Ok(AdaptiveOptions { reltol, abstol, minstep, maxstep, initstep, points, retries, norm })
    }

    /// Emits one map entry per field that has a value, under its
    /// canonical name; absent optional fields are skipped.
    pub fn to_map(&self) -> (r: OdeOptionMap)
        ensures
            r@.contains_key(OdeName::Norm),
            r@[OdeName::Norm] == OdeOption::Norm(self.norm.0),
            r@.contains_key(OdeName::Reltol) <==> self.reltol is Some,
            self.reltol matches Some(v) ==> r@[OdeName::Reltol] == OdeOption::Reltol(v.0),
            r@.contains_key(OdeName::Abstol) <==> self.abstol is Some,
            self.abstol matches Some(v) ==> r@[OdeName::Abstol] == OdeOption::Abstol(v.0),
            r@.contains_key(OdeName::Minstep) <==> self.minstep is Some,
            self.minstep matches Some(v) ==> r@[OdeName::Minstep] == OdeOption::Minstep(v.0),
            r@.contains_key(OdeName::Maxstep) <==> self.maxstep is Some,
            self.maxstep matches Some(v) ==> r@[OdeName::Maxstep] == OdeOption::Maxstep(v.0),
            r@.contains_key(OdeName::Initstep) <==> self.initstep is Some,
            self.initstep matches Some(v) ==> r@[OdeName::Initstep] == OdeOption::Initstep(v.0),
            r@.contains_key(OdeName::Points) <==> self.points is Some,
            self.points matches Some(v) ==> (r@[OdeName::Points] matches OdeOption::OutputPoints(p)
                && p@ == v.0@),
            r@.contains_key(OdeName::Retries) <==> self.retries is Some,
            self.retries matches Some(v) ==> r@[OdeName::Retries] == OdeOption::Retries(v.0),
    {
        let mut m = OdeOptionMap::new();
        m.insert(OdeName::Norm, OdeOption::Norm(self.norm.0));
        if let Some(v) = &self.reltol {
            m.insert(OdeName::Reltol, OdeOption::Reltol(v.0));
        }
        if let Some(v) = &self.abstol {
            m.insert(OdeName::Abstol, OdeOption::Abstol(v.0));
        }
        if let Some(v) = &self.minstep {
            m.insert(OdeName::Minstep, OdeOption::Minstep(v.0));
        }
        if let Some(v) = &self.maxstep {
            m.insert(OdeName::Maxstep, OdeOption::Maxstep(v.0));
        }
        if let Some(v) = &self.initstep {
            m.insert(OdeName::Initstep, OdeOption::Initstep(v.0));
        }
        if let Some(v) = &self.points {
            m.insert(OdeName::Points, OdeOption::OutputPoints(v.0.clone()));
        }
        if let Some(v) = &self.retries {
            m.insert(OdeName::Retries, OdeOption::Retries(v.0));
        }
        m
    }
}

/// Assembles an [`AdaptiveOptions`] value field by field; `build`
/// reports the missing required field if `norm` was never supplied.
#[derive(Debug)]
pub struct AdaptiveOptionsBuilder {
    pub reltol: Option<Reltol>,
    pub abstol: Option<Abstol>,
    pub minstep: Option<Minstep>,
    pub maxstep: Option<Maxstep>,
    pub initstep: Option<Initstep>,
    pub points: Option<OutputPoints>,
    pub retries: Option<Retries>,
    pub norm: Option<Norm>,
}

impl AdaptiveOptionsBuilder {
    /// A builder with every field unset.
    pub fn new() -> (r: AdaptiveOptionsBuilder)
        ensures
            r.reltol is None,
            r.abstol is None,
            r.minstep is None,
            r.maxstep is None,
            r.initstep is None,
            r.points is None,
            r.retries is None,
            r.norm is None,
    {
        AdaptiveOptionsBuilder {
            reltol: None,
            abstol: None,
            minstep: None,
            maxstep: None,
            initstep: None,
            points: None,
            retries: None,
            norm: None,
        }
    }

    /// Supplies the relative tolerance.
    pub fn reltol(self, value: Reltol) -> (r: Self)
        ensures
            r == (AdaptiveOptionsBuilder { reltol: Some(value), ..self }),
    {
        AdaptiveOptionsBuilder { reltol: Some(value), ..self }
    }

    /// Supplies the absolute tolerance.
    pub fn abstol(self, value: Abstol) -> (r: Self)
        ensures
            r == (AdaptiveOptionsBuilder { abstol: Some(value), ..self }),
    {
        AdaptiveOptionsBuilder { abstol: Some(value), ..self }
    }

    /// Supplies the minimal step.
    pub fn minstep(self, value: Minstep) -> (r: Self)
        ensures
            r == (AdaptiveOptionsBuilder { minstep: Some(value), ..self }),
    {
        AdaptiveOptionsBuilder { minstep: Some(value), ..self }
    }

    /// Supplies the maximal step.
    pub fn maxstep(self, value: Maxstep) -> (r: Self)
        ensures
            r == (AdaptiveOptionsBuilder { maxstep: Some(value), ..self }),
    {
        AdaptiveOptionsBuilder { maxstep: Some(value), ..self }
    }

    /// Supplies the initial step.
    pub fn initstep(self, value: Initstep) -> (r: Self)
        ensures
            r == (AdaptiveOptionsBuilder { initstep: Some(value), ..self }),
    {
        AdaptiveOptionsBuilder { initstep: Some(value), ..self }
    }

    /// Supplies the output-point policy.
    pub fn points(self, value: OutputPoints) -> (r: Self)
        ensures
            r == (AdaptiveOptionsBuilder { points: Some(value), ..self }),
    {
        AdaptiveOptionsBuilder { points: Some(value), ..self }
    }

    /// Supplies the retry budget.
    pub fn retries(self, value: Retries) -> (r: Self)
        ensures
            r == (AdaptiveOptionsBuilder { retries: Some(value), ..self }),
    {
        AdaptiveOptionsBuilder { retries: Some(value), ..self }
    }

    /// Supplies the norm coefficient.
    pub fn norm(self, value: Norm) -> (r: Self)
        ensures
            r == (AdaptiveOptionsBuilder { norm: Some(value), ..self }),
    {
        AdaptiveOptionsBuilder { norm: Some(value), ..self }
    }

    /// Finishes the set.  Every field must have been supplied explicitly
    /// or declare a default; `norm` declares none, so leaving it unset is
    /// a missing required field.
    pub fn build(self) -> (r: Result<AdaptiveOptions, ConfigError>)
        ensures
            self.norm is None <==> r == Err::<AdaptiveOptions, ConfigError>(
                ConfigError::MissingField(OdeName::Norm),
            ),
            self.norm matches Some(n) ==> (r matches Ok(o) && o == (AdaptiveOptions {
                reltol: self.reltol,
                abstol: self.abstol,
                minstep: self.minstep,
                maxstep: self.maxstep,
                initstep: self.initstep,
                points: self.points,
                retries: self.retries,
                norm: n,
            })),
    {
        match self.norm {
            None => Err(ConfigError::MissingField(OdeName::Norm)),
            Some(n) => Ok(
                AdaptiveOptions {
                    reltol: self.reltol,
                    abstol: self.abstol,
                    minstep: self.minstep,
                    maxstep: self.maxstep,
                    initstep: self.initstep,
                    points: self.points,
                    retries: self.retries,
                    norm: n,
                },
            ),
        }
    }
}

/// Law: storing an option under a canonical name and looking that name up
/// returns the stored value, whatever the map held before.
pub proof fn lemma_map_round_trip(m: Map<OdeName, OdeOption>, name: OdeName, value: OdeOption)
    ensures
        m.insert(name, value).contains_key(name),
        m.insert(name, value)[name] == value,
{
}

} // verus!
