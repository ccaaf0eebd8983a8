//! The class-resolution engine for the spacing family: an ordered dispatcher
//! over the category parsers (padding, then margin, then space-between) that
//! short-circuits on the first structural match, and the emitter that turns a
//! matched variant into a CSS declaration.
//!
//! A token is split into a class name and dash-separated arguments (after
//! dropping colon-delimited variant prefixes). Each category either declines
//! the token (not mine), claims it with a variant, or claims it and rejects
//! it with a warning; a claimed-but-invalid token is never retried against a
//! later category.

use vstd::prelude::*;
use vstd::string::StringExecFns;
use crate::strutil::{join_with, spec_join, spec_split, split_on, str_eq};
use crate::table::{tbl_keys, tbl_lookup, LookupTable, Tables};
use crate::warning::{spec_message, Position, Warning, WarningKind, WarningType, WarningView};

verus! {

/// The most arguments any category in this family can use: the class name
/// plus an axis and a table key.
pub const MAX_ARGS: usize = 2;

/// The token with its colon-delimited variant prefixes dropped.
pub open spec fn spec_stripped(token: Seq<char>) -> Seq<char> {
    spec_split(token, ':').last()
}

/// The dash-separated segments of the stripped token.
pub open spec fn spec_segments(token: Seq<char>) -> Seq<Seq<char>> {
    spec_split(spec_stripped(token), '-')
}

/// The class name: the first dash-separated segment.
pub open spec fn spec_class_name(token: Seq<char>) -> Seq<char> {
    spec_segments(token)[0]
}

/// The positional arguments: every dash-separated segment after the name.
pub open spec fn spec_args(token: Seq<char>) -> Seq<Seq<char>> {
    spec_segments(token).drop_first()
}

/// Which box sides a padding or margin class addresses.
#[derive(Debug, Clone, Copy, PartialEq, Eq, Structural)]
pub enum Side {
    All,
    Top,
    Right,
    Bottom,
    Left,
    X,
    Y,
}

/// A matched padding class: the side and the CSS value from the table.
#[derive(Debug)]
pub struct Padding {
    pub side: Side,
    pub value: String,
}

/// A matched margin class: the side and the CSS value from the table.
#[derive(Debug)]
pub struct Margin {
    pub side: Side,
    pub value: String,
}

/// A matched space-between class: an axis with the CSS value from the table,
/// or the axis-reversal switch.
#[derive(Debug)]
pub enum SpaceBetween {
    X(String),
    Y(String),
    ReverseX,
    ReverseY,
}

/// A resolved token of the spacing family.
#[derive(Debug)]
pub enum Spacing {
    Padding(Padding),
    Margin(Margin),
    SpaceBetween(SpaceBetween),
}

/// The mathematical images of the matched variants.
pub struct PaddingView {
    pub side: Side,
    pub value: Seq<char>,
}

pub struct MarginView {
    pub side: Side,
    pub value: Seq<char>,
}

pub enum SpaceBetweenView {
    X(Seq<char>),
    Y(Seq<char>),
    ReverseX,
    ReverseY,
}

pub enum SpacingView {
    Padding(PaddingView),
    Margin(MarginView),
    SpaceBetween(SpaceBetweenView),
}

impl View for Padding {
    type V = PaddingView;

    open spec fn view(&self) -> PaddingView {
        PaddingView { side: self.side, value: self.value@ }
    }
}

impl View for Margin {
    type V = MarginView;

    open spec fn view(&self) -> MarginView {
        MarginView { side: self.side, value: self.value@ }
    }
}

impl View for SpaceBetween {
    type V = SpaceBetweenView;

    open spec fn view(&self) -> SpaceBetweenView {
        match self {
            SpaceBetween::X(v) => SpaceBetweenView::X(v@),
            SpaceBetween::Y(v) => SpaceBetweenView::Y(v@),
            SpaceBetween::ReverseX => SpaceBetweenView::ReverseX,
            SpaceBetween::ReverseY => SpaceBetweenView::ReverseY,
        }
    }
}

impl View for Spacing {
    type V = SpacingView;

    open spec fn view(&self) -> SpacingView {
        match self {
            Spacing::Padding(p) => SpacingView::Padding(p@),
            Spacing::Margin(m) => SpacingView::Margin(m@),
            Spacing::SpaceBetween(s) => SpacingView::SpaceBetween(s@),
        }
    }
}

/// How one token fares against the whole family.
pub enum Resolution {
    /// No category recognized the class name: delegation is possible.
    NoMatch,
    /// The earliest structurally matching category claimed the token.
    Matched(SpacingView),
    /// A category claimed the token and rejected it, or the token carried
    /// too many arguments for any category.
    Warned(WarningKind),
}

/// The three-way outcome of one category's attempt at a token.
pub enum Outcome<T> {
    /// The class name is not this category's: try the next one.
    NotMine,
    /// Structurally this category's token, but invalid; the warning must
    /// reach the user and the token is never retried elsewhere.
    Invalid(WarningType),
    /// A structural match with a valid argument.
    Matched(T),
}

/// The padding side for a class name, if the name is a padding name.
pub open spec fn spec_padding_side(name: Seq<char>) -> Option<Side> {
    if name == "p"@ {
        Some(Side::All)
    } else if name == "pt"@ {
        Some(Side::Top)
    } else if name == "pr"@ {
        Some(Side::Right)
    } else if name == "pb"@ {
        Some(Side::Bottom)
    } else if name == "pl"@ {
        Some(Side::Left)
    } else if name == "px"@ {
        Some(Side::X)
    } else if name == "py"@ {
        Some(Side::Y)
    } else {
        None
    }
}

/// The margin side for a class name, if the name is a margin name.
pub open spec fn spec_margin_side(name: Seq<char>) -> Option<Side> {
    if name == "m"@ {
        Some(Side::All)
    } else if name == "mt"@ {
        Some(Side::Top)
    } else if name == "mr"@ {
        Some(Side::Right)
    } else if name == "mb"@ {
        Some(Side::Bottom)
    } else if name == "ml"@ {
        Some(Side::Left)
    } else if name == "mx"@ {
        Some(Side::X)
    } else if name == "my"@ {
        Some(Side::Y)
    } else {
        None
    }
}

/// Padding's attempt: claim any padding name; then the joined argument
/// (empty when the token carries none) must be a table key, else the
/// warning carries the complete allowed-key set. The warning is never
/// `ClassNotFound`: that name is reserved for the caller above the
/// dispatcher, for tokens no category claims.
pub open spec fn spec_attempt_padding(
    name: Seq<char>,
    args: Seq<Seq<char>>,
    table: Seq<(Seq<char>, Seq<char>)>,
) -> Resolution {
    match spec_padding_side(name) {
        None => Resolution::NoMatch,
        Some(side) => {
            let key = spec_join(args, "-"@);
            match tbl_lookup(table, key) {
                Some(v) => Resolution::Matched(
                    SpacingView::Padding(PaddingView { side, value: v }),
                ),
                None => Resolution::Warned(WarningKind::InvalidArg(key, tbl_keys(table))),
            }
        },
    }
}

/// Margin's attempt, shaped exactly like padding's.
pub open spec fn spec_attempt_margin(
    name: Seq<char>,
    args: Seq<Seq<char>>,
    table: Seq<(Seq<char>, Seq<char>)>,
) -> Resolution {
    match spec_margin_side(name) {
        None => Resolution::NoMatch,
        Some(side) => {
            let key = spec_join(args, "-"@);
            match tbl_lookup(table, key) {
                Some(v) => Resolution::Matched(
                    SpacingView::Margin(MarginView { side, value: v }),
                ),
                None => Resolution::Warned(WarningKind::InvalidArg(key, tbl_keys(table))),
            }
        },
    }
}

/// Space-between's attempt: the name must be `space`; the first argument
/// names the axis (an unrecognized or missing axis is a state failure, not
/// a miss); `reverse` flips the axis, anything else — the empty remainder
/// included — must be a table key.
pub open spec fn spec_attempt_space(
    name: Seq<char>,
    args: Seq<Seq<char>>,
    table: Seq<(Seq<char>, Seq<char>)>,
) -> Resolution {
    if name != "space"@ {
        Resolution::NoMatch
    } else if args.len() == 0 {
        Resolution::Warned(WarningKind::StateNotFound(Seq::empty()))
    } else if args[0] == "x"@ || args[0] == "y"@ {
        let key = spec_join(args.drop_first(), "-"@);
        if key == "reverse"@ {
            Resolution::Matched(
                SpacingView::SpaceBetween(
                    if args[0] == "x"@ {
                        SpaceBetweenView::ReverseX
                    } else {
                        SpaceBetweenView::ReverseY
                    },
                ),
            )
        } else {
            match tbl_lookup(table, key) {
                Some(v) => Resolution::Matched(
                    SpacingView::SpaceBetween(
                        if args[0] == "x"@ {
                            SpaceBetweenView::X(v)
                        } else {
                            SpaceBetweenView::Y(v)
                        },
                    ),
                ),
                None => Resolution::Warned(WarningKind::InvalidArg(key, tbl_keys(table))),
            }
        }
    } else {
        Resolution::Warned(WarningKind::StateNotFound(args[0]))
    }
}

/// The whole family's answer for one token: an argument-count overflow is
/// reported before any category runs; otherwise the categories are tried in
/// the fixed priority order padding, margin, space-between, and the first
/// one that does not decline decides the outcome.
pub open spec fn spec_resolve(token: Seq<char>, tables: Tables) -> Resolution {
    let name = spec_class_name(token);
    let args = spec_args(token);
    if args.len() > MAX_ARGS {
        Resolution::Warned(WarningKind::TooManyArgs(args.len() as int, MAX_ARGS as int))
    } else {
        let p = spec_attempt_padding(name, args, tables.padding.entries());
        let m = spec_attempt_margin(name, args, tables.margin.entries());
        let s = spec_attempt_space(name, args, tables.space_between.entries());
        if p != Resolution::NoMatch {
            p
        } else if m != Resolution::NoMatch {
            m
        } else {
            s
        }
    }
}

impl Padding {
    fn side_of(name: &str) -> (r: Option<Side>)
        ensures
            r == spec_padding_side(name@),
    {
        if str_eq(name, "p") {
            Some(Side::All)
        } else if str_eq(name, "pt") {
            Some(Side::Top)
        } else if str_eq(name, "pr") {
            Some(Side::Right)
        } else if str_eq(name, "pb") {
            Some(Side::Bottom)
        } else if str_eq(name, "pl") {
            Some(Side::Left)
        } else if str_eq(name, "px") {
            Some(Side::X)
        } else if str_eq(name, "py") {
            Some(Side::Y)
        } else {
            None
        }
    }

    /// Padding's category parser.
    pub fn attempt(name: &str, args: &Vec<String>, table: &LookupTable) -> (o: Outcome<Padding>)
        requires
            table.wf(),
        ensures
            (match o {
                Outcome::NotMine => spec_attempt_padding(name@, args.deep_view(), table.entries())
                    == Resolution::NoMatch,
                Outcome::Invalid(w) => spec_attempt_padding(
                    name@,
                    args.deep_view(),
                    table.entries(),
                ) == Resolution::Warned(w@),
                Outcome::Matched(p) => spec_attempt_padding(
                    name@,
                    args.deep_view(),
                    table.entries(),
                ) == Resolution::Matched(SpacingView::Padding(p@)),
            }),
    {
        match Self::side_of(name) {
            None => Outcome::NotMine,
            Some(side) => {
                let key = join_with(args, "-");
                match table.get(key.as_str()) {
                    Some(v) => Outcome::Matched(Padding { side, value: v.clone() }),
                    None => Outcome::Invalid(WarningType::InvalidArg(key, table.keys_vec())),
                }
            },
        }
    }
}

impl Margin {
    fn side_of(name: &str) -> (r: Option<Side>)
        ensures
            r == spec_margin_side(name@),
    {
        if str_eq(name, "m") {
            Some(Side::All)
        } else if str_eq(name, "mt") {
            Some(Side::Top)
        } else if str_eq(name, "mr") {
            Some(Side::Right)
        } else if str_eq(name, "mb") {
            Some(Side::Bottom)
        } else if str_eq(name, "ml") {
            Some(Side::Left)
        } else if str_eq(name, "mx") {
            Some(Side::X)
        } else if str_eq(name, "my") {
            Some(Side::Y)
        } else {
            None
        }
    }

    /// Margin's category parser.
    pub fn attempt(name: &str, args: &Vec<String>, table: &LookupTable) -> (o: Outcome<Margin>)
        requires
            table.wf(),
        ensures
            (match o {
                Outcome::NotMine => spec_attempt_margin(name@, args.deep_view(), table.entries())
                    == Resolution::NoMatch,
                Outcome::Invalid(w) => spec_attempt_margin(
                    name@,
                    args.deep_view(),
                    table.entries(),
                ) == Resolution::Warned(w@),
                Outcome::Matched(m) => spec_attempt_margin(
                    name@,
                    args.deep_view(),
                    table.entries(),
                ) == Resolution::Matched(SpacingView::Margin(m@)),
            }),
    {
        match Self::side_of(name) {
            None => Outcome::NotMine,
            Some(side) => {
                let key = join_with(args, "-");
                match table.get(key.as_str()) {
                    Some(v) => Outcome::Matched(Margin { side, value: v.clone() }),
                    None => Outcome::Invalid(WarningType::InvalidArg(key, table.keys_vec())),
                }
            },
        }
    }
}

impl SpaceBetween {
    /// Space-between's category parser.
    pub fn attempt(name: &str, args: &Vec<String>, table: &LookupTable) -> (o: Outcome<
        SpaceBetween,
    >)
        requires
            table.wf(),
        ensures
            (match o {
                Outcome::NotMine => spec_attempt_space(name@, args.deep_view(), table.entries())
                    == Resolution::NoMatch,
                Outcome::Invalid(w) => spec_attempt_space(
                    name@,
                    args.deep_view(),
                    table.entries(),
                ) == Resolution::Warned(w@),
                Outcome::Matched(s) => spec_attempt_space(
                    name@,
                    args.deep_view(),
                    table.entries(),
                ) == Resolution::Matched(SpacingView::SpaceBetween(s@)),
            }),
    {
        if !str_eq(name, "space") {
            return Outcome::NotMine;
        }
        if args.len() == 0 {
            return Outcome::Invalid(WarningType::StateNotFound(String::new()));
        }
        let axis_x = str_eq(args[0].as_str(), "x");
        let axis_y = str_eq(args[0].as_str(), "y");
        if !axis_x && !axis_y {
            return Outcome::Invalid(WarningType::StateNotFound(args[0].clone()));
        }
        let mut rest: Vec<String> = Vec::new();
        let mut j: usize = 1;
        proof {
            assert(rest.deep_view() =~= args.deep_view().subrange(1, 1));
        }
        while j < args.len()
            invariant
                1 <= j <= args@.len(),
                rest.deep_view() == args.deep_view().subrange(1, j as int),
            decreases args@.len() - j,
        {
            let ghost prev = rest.deep_view();
            let piece = args[j].clone();
            let ghost pv = piece@;
            proof {
                assert(pv == args.deep_view()[j as int]);
            }
            rest.push(piece);
            proof {
                assert(rest.deep_view() =~= prev.push(pv));
                assert(prev.push(pv) =~= args.deep_view().subrange(1, j + 1));
            }
            j += 1;
        }
        proof {
            assert(args.deep_view().subrange(1, args@.len() as int) =~= args.deep_view()
                .drop_first());
        }
        let key = join_with(&rest, "-");
        if str_eq(key.as_str(), "reverse") {
            return Outcome::Matched(
                if axis_x {
                    SpaceBetween::ReverseX
                } else {
                    SpaceBetween::ReverseY
                },
            );
        }
        match table.get(key.as_str()) {
            Some(v) => Outcome::Matched(
                if axis_x {
                    SpaceBetween::X(v.clone())
                } else {
                    SpaceBetween::Y(v.clone())
                },
            ),
            None => Outcome::Invalid(WarningType::InvalidArg(key, table.keys_vec())),
        }
    }
}

impl Spacing {
    /// The dispatcher: extracts the class name and arguments once, reports an
    /// argument-count overflow before any category runs, then tries padding,
    /// margin and space-between in that order, short-circuiting on the first
    /// category that does not decline.
    pub fn new(value: &str, tables: &Tables) -> (r: Result<Option<Spacing>, WarningType>)
        requires
            tables.wf(),
        ensures
            (match r {
                Ok(Some(sp)) => spec_resolve(value@, *tables) == Resolution::Matched(sp@),
                Ok(None) => spec_resolve(value@, *tables) == Resolution::NoMatch,
                Err(w) => spec_resolve(value@, *tables) == Resolution::Warned(w@),
            }),
    {
        let vparts = split_on(value, ':');
        let stripped = vparts[vparts.len() - 1].as_str();
        proof {
            assert(stripped@ == spec_stripped(value@));
        }
        let mut segs = split_on(stripped, '-');
        let name = segs.remove(0);
        proof {
            assert(name@ == spec_class_name(value@));
            assert(segs.deep_view() =~= spec_args(value@));
        }
        if segs.len() > MAX_ARGS {
            return Err(WarningType::TooManyArgs(segs.len(), MAX_ARGS));
        }
        match Padding::attempt(name.as_str(), &segs, &tables.padding) {
            Outcome::Matched(p) => Ok(Some(Spacing::Padding(p))),
            Outcome::Invalid(w) => Err(w),
            Outcome::NotMine => match Margin::attempt(name.as_str(), &segs, &tables.margin) {
                Outcome::Matched(m) => Ok(Some(Spacing::Margin(m))),
                Outcome::Invalid(w) => Err(w),
                Outcome::NotMine => match SpaceBetween::attempt(
                    name.as_str(),
                    &segs,
                    &tables.space_between,
                ) {
                    Outcome::Matched(s) => Ok(Some(Spacing::SpaceBetween(s))),
                    Outcome::Invalid(w) => Err(w),
                    Outcome::NotMine => Ok(None),
                },
            },
        }
    }

    /// The emitter: every matched variant becomes one property/value pair.
    pub fn to_decl(self) -> (r: Result<Decl, WarningType>)
        ensures
            r matches Ok(d) && d@ == spec_emit(self@),
    {
        let d = match self {
            Spacing::Padding(p) => Decl { property: padding_property(p.side), value: p.value },
            Spacing::Margin(m) => Decl { property: margin_property(m.side), value: m.value },
            Spacing::SpaceBetween(sb) => match sb {
                SpaceBetween::X(v) => Decl { property: "margin-left".to_owned(), value: v },
                SpaceBetween::Y(v) => Decl { property: "margin-top".to_owned(), value: v },
                SpaceBetween::ReverseX => Decl {
                    property: "--tw-space-x-reverse".to_owned(),
                    value: "1".to_owned(),
                },
                SpaceBetween::ReverseY => Decl {
                    property: "--tw-space-y-reverse".to_owned(),
                    value: "1".to_owned(),
                },
            },
        };
        Ok(d)
    }
}

/// A resolved CSS declaration, ready for stylesheet assembly.
#[derive(Debug)]
pub struct Decl {
    pub property: String,
    pub value: String,
}

/// The mathematical image of a `Decl`.
pub struct DeclView {
    pub property: Seq<char>,
    pub value: Seq<char>,
}

impl View for Decl {
    type V = DeclView;

    open spec fn view(&self) -> DeclView {
        DeclView { property: self.property@, value: self.value@ }
    }
}

impl Decl {
    /// One stylesheet line for this declaration.
    pub fn css_text(&self) -> (r: String)
        ensures
            r@ == self@.property + ": "@ + self@.value + ";"@,
    {
        let mut r = self.property.clone();
        r.append(": ");
        r.append(self.value.as_str());
        r.append(";");
        r
    }
}

/// The CSS property a padding side maps to.
pub open spec fn spec_padding_property(side: Side) -> Seq<char> {
    match side {
        Side::All => "padding"@,
        Side::Top => "padding-top"@,
        Side::Right => "padding-right"@,
        Side::Bottom => "padding-bottom"@,
        Side::Left => "padding-left"@,
        Side::X => "padding-inline"@,
        Side::Y => "padding-block"@,
    }
}

/// The CSS property a margin side maps to.
pub open spec fn spec_margin_property(side: Side) -> Seq<char> {
    match side {
        Side::All => "margin"@,
        Side::Top => "margin-top"@,
        Side::Right => "margin-right"@,
        Side::Bottom => "margin-bottom"@,
        Side::Left => "margin-left"@,
        Side::X => "margin-inline"@,
        Side::Y => "margin-block"@,
    }
}

/// The declaration a matched variant emits; the table value is carried over
/// verbatim.
pub open spec fn spec_emit(v: SpacingView) -> DeclView {
    match v {
        SpacingView::Padding(p) => DeclView {
            property: spec_padding_property(p.side),
            value: p.value,
        },
        SpacingView::Margin(m) => DeclView {
            property: spec_margin_property(m.side),
            value: m.value,
        },
        SpacingView::SpaceBetween(sb) => match sb {
            SpaceBetweenView::X(val) => DeclView { property: "margin-left"@, value: val },
            SpaceBetweenView::Y(val) => DeclView { property: "margin-top"@, value: val },
            SpaceBetweenView::ReverseX => DeclView {
                property: "--tw-space-x-reverse"@,
                value: "1"@,
            },
            SpaceBetweenView::ReverseY => DeclView {
                property: "--tw-space-y-reverse"@,
                value: "1"@,
            },
        },
    }
}

fn padding_property(side: Side) -> (r: String)
    ensures
        r@ == spec_padding_property(side),
{
    match side {
        Side::All => "padding".to_owned(),
        Side::Top => "padding-top".to_owned(),
        Side::Right => "padding-right".to_owned(),
        Side::Bottom => "padding-bottom".to_owned(),
        Side::Left => "padding-left".to_owned(),
        Side::X => "padding-inline".to_owned(),
        Side::Y => "padding-block".to_owned(),
    }
}

/// The token views of a positioned token list.
pub open spec fn spec_token_views(tokens: Seq<(String, Position)>) -> Seq<(Seq<char>, Position)> {
    tokens.map_values(|t: (String, Position)| (t.0@, t.1))
}

/// The declarations a positioned token list resolves to, in input order.
pub open spec fn spec_run_decls(tokens: Seq<(Seq<char>, Position)>, tables: Tables) -> Seq<
    DeclView,
>
    decreases tokens.len(),
{
    if tokens.len() == 0 {
        Seq::empty()
    } else {
        let init = spec_run_decls(tokens.drop_last(), tables);
        match spec_resolve(tokens.last().0, tables) {
            Resolution::Matched(v) => init.push(spec_emit(v)),
            _ => init,
        }
    }
}

/// The warnings a positioned token list yields, in input order: a rejected
/// token contributes its own warning, an unmatched token is reported as
/// `ClassNotFound`; a resolved token contributes nothing.
pub open spec fn spec_run_warnings(tokens: Seq<(Seq<char>, Position)>, tables: Tables) -> Seq<
    WarningView,
>
    decreases tokens.len(),
{
    if tokens.len() == 0 {
        Seq::empty()
    } else {
        let init = spec_run_warnings(tokens.drop_last(), tables);
        let tok = tokens.last();
        match spec_resolve(tok.0, tables) {
            Resolution::Matched(_) => init,
            Resolution::NoMatch => init.push(
                WarningView {
                    message: spec_message(tok.0, WarningKind::ClassNotFound),
                    position: tok.1,
                },
            ),
            Resolution::Warned(k) => init.push(
                WarningView { message: spec_message(tok.0, k), position: tok.1 },
            ),
        }
    }
}

/// Resolves every token of a run: the run always completes, no warning
/// aborts it, and an unresolved token never blocks the output of the tokens
/// that did resolve.
pub fn resolve_all(tokens: &Vec<(String, Position)>, tables: &Tables) -> (r: (Vec<Decl>, Vec<
    Warning,
>))
    requires
        tables.wf(),
    ensures
        r.0@.map_values(|d: Decl| d@) == spec_run_decls(spec_token_views(tokens@), *tables),
        r.1@.map_values(|w: Warning| w@) == spec_run_warnings(spec_token_views(tokens@), *tables),
{
    let mut decls: Vec<Decl> = Vec::new();
    let mut warnings: Vec<Warning> = Vec::new();
    let mut i: usize = 0;
    let n = tokens.len();
    proof {
        assert(spec_token_views(tokens@).take(0) =~= Seq::<(Seq<char>, Position)>::empty());
        assert(decls@.map_values(|d: Decl| d@) =~= Seq::<DeclView>::empty());
        assert(warnings@.map_values(|w: Warning| w@) =~= Seq::<WarningView>::empty());
    }
    while i < n
        invariant
            i <= n,
            n == tokens@.len(),
            tables.wf(),
            decls@.map_values(|d: Decl| d@) == spec_run_decls(
                spec_token_views(tokens@).take(i as int),
                *tables,
            ),
            warnings@.map_values(|w: Warning| w@) == spec_run_warnings(
                spec_token_views(tokens@).take(i as int),
                *tables,
            ),
        decreases n - i,
    {
        let ghost tv = spec_token_views(tokens@);
        proof {
            assert(tv.take(i + 1).drop_last() =~= tv.take(i as int));
            assert(tv.take(i + 1).last() == tv[i as int]);
        }
        let tok = &tokens[i];
        let ghost pre_decls = decls@.map_values(|d: Decl| d@);
        let ghost pre_warnings = warnings@.map_values(|w: Warning| w@);
        match Spacing::new(tok.0.as_str(), tables) {
            Ok(Some(sp)) => {
                match sp.to_decl() {
                    Ok(d) => {
                        let ghost dv = d@;
                        decls.push(d);
                        proof {
                            assert(decls@.map_values(|d: Decl| d@) =~= pre_decls.push(dv));
                        }
                    },
                    Err(_) => {},
                }
            },
            Ok(None) => {
                let w = Warning::new(tok.0.as_str(), &tok.1, WarningType::ClassNotFound);
                let ghost wv = w@;
                warnings.push(w);
                proof {
                    assert(warnings@.map_values(|w: Warning| w@) =~= pre_warnings.push(wv));
                }
            },
            Err(wt) => {
                let w = Warning::new(tok.0.as_str(), &tok.1, wt);
                let ghost wv = w@;
                warnings.push(w);
                proof {
                    assert(warnings@.map_values(|w: Warning| w@) =~= pre_warnings.push(wv));
                }
            },
        }
        i += 1;
    }
    proof {
        assert(spec_token_views(tokens@).take(n as int) =~= spec_token_views(tokens@));
    }
    (decls, warnings)
}

fn margin_property(side: Side) -> (r: String)
    ensures
        r@ == spec_margin_property(side),
{
    match side {
        Side::All => "margin".to_owned(),
        Side::Top => "margin-top".to_owned(),
        Side::Right => "margin-right".to_owned(),
        Side::Bottom => "margin-bottom".to_owned(),
        Side::Left => "margin-left".to_owned(),
        Side::X => "margin-inline".to_owned(),
        Side::Y => "margin-block".to_owned(),
    }
}

} // verus!
