//! The reference-type taxonomy and the import-context accumulator.
//!
//! A [`ReferenceType`] records why a module reference exists: a CommonJS
//! `require`, an ECMAScript `import`, a CSS `@import`, and so on.  Each
//! top-level kind carries a kind-specific subtype whose `Undefined` value is
//! the kind's wildcard.  [`ReferenceType::includes`] is the asymmetric
//! subsumption test that rule matching branches on.
//!
//! An [`ImportContext`] accumulates the `layer`/`supports`/`media` conditions
//! of a chain of nested CSS `@import` statements: an immutable,
//! order-preserving, duplicate-free sequence per condition family.

use vstd::prelude::*;

use crate::handles::ModulePartHandle;
use crate::inner_assets::InnerAssets;

verus! {

/// The individual set of conditions present on one module through `@import`.
///
/// These are the raw, unmerged conditions of a single `@import` site; they
/// are folded into the ambient [`ImportContext`] with
/// [`ImportContext::add_attributes`].
pub struct ImportAttributes {
    pub layer: Option<String>,
    pub supports: Option<String>,
    pub media: Option<String>,
}

/// Mathematical view of an [`ImportContext`]: the three condition families
/// as sequences of character sequences.
#[verifier::ext_equal]
pub struct ImportContextView {
    pub layers: Seq<Seq<char>>,
    pub supports: Seq<Seq<char>>,
    pub media: Seq<Seq<char>>,
}

/// Appends `x` at the end of `s` if it is present and not already an
/// element of `s`; otherwise leaves `s` unchanged.
pub open spec fn append_if_new(s: Seq<Seq<char>>, x: Option<Seq<char>>) -> Seq<Seq<char>> {
    match x {
        Some(v) => if s.contains(v) {
            s
        } else {
            s.push(v)
        },
        None => s,
    }
}

impl ImportContextView {
    /// One `@import` site's conditions folded into this context: each family
    /// independently appends its value if new, preserving arrival order.
    pub open spec fn add(
        self,
        layer: Option<Seq<char>>,
        media: Option<Seq<char>>,
        supports: Option<Seq<char>>,
    ) -> ImportContextView {
        ImportContextView {
            layers: append_if_new(self.layers, layer),
            media: append_if_new(self.media, media),
            supports: append_if_new(self.supports, supports),
        }
    }
}

/// The accumulated list of conditions that apply to a module through its
/// CSS `@import` path.
///
/// Each family is an insertion-ordered, duplicate-free sequence of strings.
/// Values are immutable once constructed: [`ImportContext::add_attributes`]
/// returns a new context and leaves the receiver untouched, so independent
/// resolution branches can share a context freely.  Order is observable
/// downstream (it reflects the left-to-right composition of nested
/// `@import` conditions), so elements are only ever appended, never
/// reordered or removed.
#[derive(Clone, Debug, PartialEq, Eq)]
pub struct ImportContext {
    pub layers: Vec<String>,
    pub supports: Vec<String>,
    pub media: Vec<String>,
}

impl View for ImportContext {
    type V = ImportContextView;

    open spec fn view(&self) -> ImportContextView {
        ImportContextView {
            layers: self.layers.deep_view(),
            supports: self.supports.deep_view(),
            media: self.media.deep_view(),
        }
    }
}

/// Whether the string `s` is an element of `v`, compared by content.
fn vec_contains_string(v: &Vec<String>, s: &String) -> (found: bool)
    ensures
        found == v.deep_view().contains(s@),
{
    let mut i: usize = 0;
    while i < v.len()
        invariant
            i <= v.len(),
            forall|j: int| 0 <= j < i ==> v.deep_view()[j] != s@,
        decreases v.len() - i,
    {
        if v[i] == *s {
            proof {
                assert(v.deep_view()[i as int] == s@);
            }
            return true;
        }
        i += 1;
    }
    false
}

/// A content-equal copy of `v`.
fn clone_string_vec(v: &Vec<String>) -> (out: Vec<String>)
    ensures
        out.deep_view() == v.deep_view(),
{
    let mut out: Vec<String> = Vec::new();
    let mut i: usize = 0;
    while i < v.len()
        invariant
            i <= v.len(),
            out.deep_view() =~= v.deep_view().take(i as int),
        decreases v.len() - i,
    {
        let ghost pre = out.deep_view();
        let element = v[i].clone();
        proof {
            assert(element@ == v.deep_view()[i as int]);
        }
        out.push(element);
        proof {
            assert(out.deep_view() =~= pre.push(element@));
            assert(pre.push(element@) =~= v.deep_view().take(i as int + 1));
        }
        i += 1;
    }
    proof {
        assert(out.deep_view() =~= v.deep_view());
    }
    out
}

/// A copy of `v` with `item` appended at the end if it is present and not
/// already an element, compared by content.
fn pushed_if_new(v: &Vec<String>, item: Option<String>) -> (out: Vec<String>)
    ensures
        out.deep_view() == append_if_new(v.deep_view(), item.deep_view()),
{
    let mut out = clone_string_vec(v);
    match item {
        Some(s) => {
            if !vec_contains_string(&out, &s) {
                out.push(s);
                proof {
                    assert(out.deep_view() =~= v.deep_view().push(s@));
                }
            }
        },
        None => {},
    }
    out
}

impl ImportContext {
    /// Constructs a context directly from three caller-supplied ordered
    /// sequences.  No deduplication is performed here: if the caller needs
    /// duplicate-free input at construction time, that is the caller's
    /// responsibility.
    pub fn new(layers: Vec<String>, media: Vec<String>, supports: Vec<String>) -> (r:
        ImportContext)
        ensures
            r.layers == layers,
            r.media == media,
            r.supports == supports,
    {
        ImportContext { layers, media, supports }
    }

    /// Folds one `@import` site's conditions into this context, returning a
    /// new context and leaving the receiver unchanged.
    ///
    /// For each of the three families independently: if the corresponding
    /// value is present and not already an element of that family's
    /// sequence, it is appended at the end; if absent or already present,
    /// the family is copied unchanged.
    pub fn add_attributes(
        &self,
        attr_layer: Option<String>,
        attr_media: Option<String>,
        attr_supports: Option<String>,
    ) -> (r: ImportContext)
        ensures
            r@ == self@.add(attr_layer.deep_view(), attr_media.deep_view(), attr_supports.deep_view()),
    {
        let layers = pushed_if_new(&self.layers, attr_layer);
        let media = pushed_if_new(&self.media, attr_media);
        let supports = pushed_if_new(&self.supports, attr_supports);
        ImportContext { layers, media, supports }
    }
}

// The taxonomy below lists well-known reference kinds used internally.
// Plugins may add custom kinds later; until that extension mechanism
// exists, every `Custom(u8)` tag is a reserved placeholder whose matching
// and rendering are deliberately left unsupported.

/// Subtype of a CommonJS `require` reference.
#[derive(Clone, Copy, Debug, PartialEq, Eq, Structural)]
pub enum CommonJsReferenceSubType {
    Custom(u8),
    Undefined,
}

/// Subtype of an ECMAScript-module `import` reference.
#[derive(Clone, Copy, Debug, PartialEq, Eq, Structural)]
pub enum EcmaScriptModulesReferenceSubType {
    ImportPart(ModulePartHandle),
    Import,
    DynamicImport,
    Custom(u8),
    Undefined,
}

impl Default for EcmaScriptModulesReferenceSubType {
    fn default() -> (r: Self)
        ensures
            r == EcmaScriptModulesReferenceSubType::Undefined,
    {
        EcmaScriptModulesReferenceSubType::Undefined
    }
}

/// Subtype of a CSS reference.
#[derive(Clone, Debug)]
pub enum CssReferenceSubType {
    /// Reference through an `@import` statement, optionally carrying the
    /// conditions accumulated along the import path.  For condition
    /// matching the carried context is ignored entirely: any `AtImport`
    /// accepts any other `AtImport` (a deliberate approximation).
    AtImport(Option<Box<ImportContext>>),
    Compose,
    /// Reference from any asset to a CSS-parseable asset.
    ///
    /// This marks the boundary between non-CSS and CSS assets, used to
    /// inject client references in between global/module CSS assets and
    /// the underlying CSS assets.
    Internal,
    Custom(u8),
    Undefined,
}

/// Subtype of a URL reference.
#[derive(Clone, Copy, Debug, PartialEq, Eq, Structural)]
pub enum UrlReferenceSubType {
    EcmaScriptNewUrl,
    CssUrl,
    Custom(u8),
    Undefined,
}

/// Subtype of a TypeScript reference.
#[derive(Clone, Copy, Debug, PartialEq, Eq, Structural)]
pub enum TypeScriptReferenceSubType {
    Custom(u8),
    Undefined,
}

/// Subtype of an entry-point reference.
#[derive(Clone, Copy, Debug, PartialEq, Eq, Structural)]
pub enum EntryReferenceSubType {
    Web,
    Page,
    PagesApi,
    AppPage,
    AppRoute,
    AppClientComponent,
    Middleware,
    Instrumentation,
    Runtime,
    Custom(u8),
    Undefined,
}

/// Why a module reference exists: a closed set of top-level kinds, each
/// with an extensible subtype whose `Undefined` value is the kind's
/// wildcard.
pub enum ReferenceType {
    CommonJs(CommonJsReferenceSubType),
    EcmaScriptModules(EcmaScriptModulesReferenceSubType),
    Css(CssReferenceSubType),
    Url(UrlReferenceSubType),
    TypeScript(TypeScriptReferenceSubType),
    Entry(EntryReferenceSubType),
    Runtime,
    Internal(InnerAssets),
    Custom(u8),
    Undefined,
}

impl ReferenceType {
    /// The asymmetric subsumption relation: does a constraint classified
    /// as `self` accept a candidate classified as `other`?
    ///
    /// Identical values always match; otherwise a value matches only
    /// within its own top-level kind, and there exactly when `self`'s
    /// subtype is the kind's `Undefined` wildcard — except that any
    /// `Css(AtImport(_))` accepts any other `Css(AtImport(_))` regardless
    /// of the carried context, any `Internal(_)` accepts any other
    /// `Internal(_)` regardless of its assets, and the top-level
    /// `Undefined` accepts everything.  Two distinct top-level `Custom`
    /// tags are outside the relation's implemented domain (a future
    /// extension mechanism will define their semantics); this spec maps
    /// them to `false`, and [`Self::includes`] keeps them out of its
    /// domain by precondition.
    pub open spec fn includes_spec(self, other: ReferenceType) -> bool {
        if self == other {
            true
        } else {
            match self {
                ReferenceType::CommonJs(sub) => other is CommonJs && sub is Undefined,
                ReferenceType::EcmaScriptModules(sub) => other is EcmaScriptModules && sub
                    is Undefined,
                ReferenceType::Css(sub) => if sub is AtImport {
                    other matches ReferenceType::Css(CssReferenceSubType::AtImport(_))
                } else {
                    other is Css && sub is Undefined
                },
                ReferenceType::Url(sub) => other is Url && sub is Undefined,
                ReferenceType::TypeScript(sub) => other is TypeScript && sub is Undefined,
                ReferenceType::Entry(sub) => other is Entry && sub is Undefined,
                ReferenceType::Runtime => other is Runtime,
                ReferenceType::Internal(_) => other is Internal,
                ReferenceType::Custom(_) => false,
                ReferenceType::Undefined => true,
            }
        }
    }

    /// Whether `self` and `other` are of the same top-level kind.
    pub open spec fn same_top_level_kind(self, other: ReferenceType) -> bool {
        match (self, other) {
            (ReferenceType::CommonJs(_), ReferenceType::CommonJs(_)) => true,
            (ReferenceType::EcmaScriptModules(_), ReferenceType::EcmaScriptModules(_)) => true,
            (ReferenceType::Css(_), ReferenceType::Css(_)) => true,
            (ReferenceType::Url(_), ReferenceType::Url(_)) => true,
            (ReferenceType::TypeScript(_), ReferenceType::TypeScript(_)) => true,
            (ReferenceType::Entry(_), ReferenceType::Entry(_)) => true,
            (ReferenceType::Runtime, ReferenceType::Runtime) => true,
            (ReferenceType::Internal(_), ReferenceType::Internal(_)) => true,
            (ReferenceType::Custom(_), ReferenceType::Custom(_)) => true,
            (ReferenceType::Undefined, ReferenceType::Undefined) => true,
            _ => false,
        }
    }

    /// Whether `self`'s kind carries a kind-specific subtype.
    pub open spec fn has_subtype(self) -> bool {
        match self {
            ReferenceType::CommonJs(_) => true,
            ReferenceType::EcmaScriptModules(_) => true,
            ReferenceType::Css(_) => true,
            ReferenceType::Url(_) => true,
            ReferenceType::TypeScript(_) => true,
            ReferenceType::Entry(_) => true,
            _ => false,
        }
    }

    /// Whether `self`'s subtype is its kind's `Undefined` wildcard.
    pub open spec fn subtype_is_wildcard(self) -> bool {
        match self {
            ReferenceType::CommonJs(sub) => sub is Undefined,
            ReferenceType::EcmaScriptModules(sub) => sub is Undefined,
            ReferenceType::Css(sub) => sub is Undefined,
            ReferenceType::Url(sub) => sub is Undefined,
            ReferenceType::TypeScript(sub) => sub is Undefined,
            ReferenceType::Entry(sub) => sub is Undefined,
            _ => false,
        }
    }

    /// The asymmetric subsumption test; see [`Self::includes_spec`] for
    /// the rules.
    ///
    /// Comparing two distinct top-level `Custom` tags is an unimplemented
    /// extension point, kept out of the domain by the precondition; use
    /// [`Self::checked_includes`] where that case must be reported at run
    /// time.
    pub fn includes(&self, other: &ReferenceType) -> (r: bool)
        requires
            self matches ReferenceType::Custom(_) ==> *self == *other,
        ensures
            r == self.includes_spec(*other),
    {
        match (self, other) {
            (ReferenceType::CommonJs(a), ReferenceType::CommonJs(b)) => *a == *b || matches!(
                a,
                CommonJsReferenceSubType::Undefined,
            ),
            (ReferenceType::EcmaScriptModules(a), ReferenceType::EcmaScriptModules(b)) => *a == *b
                || matches!(a, EcmaScriptModulesReferenceSubType::Undefined),
            (ReferenceType::Css(a), ReferenceType::Css(b)) => match (a, b) {
                (CssReferenceSubType::AtImport(_), CssReferenceSubType::AtImport(_)) => true,
                (CssReferenceSubType::Undefined, _) => true,
                (CssReferenceSubType::Compose, CssReferenceSubType::Compose) => true,
                (CssReferenceSubType::Internal, CssReferenceSubType::Internal) => true,
                (CssReferenceSubType::Custom(x), CssReferenceSubType::Custom(y)) => x == y,
                _ => false,
            },
            (ReferenceType::Url(a), ReferenceType::Url(b)) => *a == *b || matches!(
                a,
                UrlReferenceSubType::Undefined,
            ),
            (ReferenceType::TypeScript(a), ReferenceType::TypeScript(b)) => *a == *b || matches!(
                a,
                TypeScriptReferenceSubType::Undefined,
            ),
            (ReferenceType::Entry(a), ReferenceType::Entry(b)) => *a == *b || matches!(
                a,
                EntryReferenceSubType::Undefined,
            ),
            (ReferenceType::Runtime, ReferenceType::Runtime) => true,
            (ReferenceType::Internal(_), ReferenceType::Internal(_)) => true,
            (ReferenceType::Custom(_), _) => true,
            (ReferenceType::Undefined, _) => true,
            _ => false,
        }
    }

    /// Total-domain front door for [`Self::includes`]: a comparison that
    /// reaches the unimplemented `Custom` arm reports `None` (unsupported
    /// custom type) instead of silently defaulting to a match result.
    pub fn checked_includes(&self, other: &ReferenceType) -> (r: Option<bool>)
        ensures
            r is None <==> (self matches ReferenceType::Custom(_) && *self != *other),
            r matches Some(b) ==> b == self.includes_spec(*other),
    {
        match (self, other) {
            (ReferenceType::Custom(x), ReferenceType::Custom(y)) => {
                if *x == *y {
                    Some(true)
                } else {
                    None
                }
            },
            (ReferenceType::Custom(_), _) => None,
            _ => Some(self.includes(other)),
        }
    }

    /// True exactly for the reference types that point at internal
    /// assets: `Internal(_)`, `Css(Internal)` and `Runtime`.
    pub open spec fn is_internal_spec(self) -> bool {
        ||| self matches ReferenceType::Internal(_)
        ||| self matches ReferenceType::Css(CssReferenceSubType::Internal)
        ||| self is Runtime
    }

    /// Whether this reference type is internal, used by rule matching to
    /// decide whether internal-only rules apply to an asset or reference.
    pub fn is_internal(&self) -> (r: bool)
        ensures
            r == self.is_internal_spec(),
    {
        match self {
            ReferenceType::Internal(_) => true,
            ReferenceType::Css(CssReferenceSubType::Internal) => true,
            ReferenceType::Runtime => true,
            _ => false,
        }
    }

    /// The short label of each top-level kind; only the `ImportPart`
    /// subtype gets a label of its own, every other subtype is suppressed.
    /// The `Custom` kind has no defined rendering (the same deliberate gap
    /// as in matching) and is mapped to the empty label, which
    /// [`Self::display_name`] keeps out of its domain.
    pub open spec fn display_label(self) -> Seq<char> {
        match self {
            ReferenceType::CommonJs(_) => "commonjs"@,
            ReferenceType::EcmaScriptModules(sub) => if sub is ImportPart {
                "EcmaScript Modules (part)"@
            } else {
                "EcmaScript Modules"@
            },
            ReferenceType::Css(_) => "css"@,
            ReferenceType::Url(_) => "url"@,
            ReferenceType::TypeScript(_) => "typescript"@,
            ReferenceType::Entry(_) => "entry"@,
            ReferenceType::Runtime => "runtime"@,
            ReferenceType::Internal(_) => "internal"@,
            ReferenceType::Custom(_) => Seq::empty(),
            ReferenceType::Undefined => "undefined"@,
        }
    }

    /// A short human-readable label for this reference type.
    pub fn display_name(&self) -> (r: String)
        requires
            !(self is Custom),
        ensures
            r@ == self.display_label(),
    {
        let label: &str = match self {
            ReferenceType::CommonJs(_) => "commonjs",
            ReferenceType::EcmaScriptModules(sub) => match sub {
                EcmaScriptModulesReferenceSubType::ImportPart(_) => "EcmaScript Modules (part)",
                _ => "EcmaScript Modules",
            },
            ReferenceType::Css(_) => "css",
            ReferenceType::Url(_) => "url",
            ReferenceType::TypeScript(_) => "typescript",
            ReferenceType::Entry(_) => "entry",
            ReferenceType::Runtime => "runtime",
            ReferenceType::Internal(_) => "internal",
            ReferenceType::Custom(_) => "",
            ReferenceType::Undefined => "undefined",
        };
        label.to_owned()
    }
}

/// Subsumption is reflexive: every reference type accepts itself.
pub proof fn lemma_includes_reflexive(v: ReferenceType)
    ensures
        v.includes_spec(v),
{
}

/// The top-level `Undefined` wildcard accepts every reference type.
pub proof fn lemma_undefined_includes_all(x: ReferenceType)
    ensures
        ReferenceType::Undefined.includes_spec(x),
{
}

/// Within one kind the `Undefined` subtype is a wildcard: it accepts
/// every subtype of that kind.
pub proof fn lemma_wildcard_subsumes(a: ReferenceType, b: ReferenceType)
    requires
        a.same_top_level_kind(b),
        a.subtype_is_wildcard(),
    ensures
        a.includes_spec(b),
{
}

/// A kind's wildcard is subsumed by nothing but the wildcard itself: a
/// same-kind constraint that accepts the `Undefined` subtype is the
/// wildcard.
pub proof fn lemma_wildcard_subsumed_only_by_wildcard(a: ReferenceType, b: ReferenceType)
    requires
        a.same_top_level_kind(b),
        b.subtype_is_wildcard(),
        a.includes_spec(b),
    ensures
        a.subtype_is_wildcard(),
{
}

/// Distinct non-wildcard subtypes of one kind never subsume each other.
/// The one exception, excluded here, is `Css(AtImport(_))`, which
/// deliberately accepts any other `Css(AtImport(_))` whatever context
/// either carries.
pub proof fn lemma_distinct_subtypes_no_subsumption(a: ReferenceType, b: ReferenceType)
    requires
        a.same_top_level_kind(b),
        a.has_subtype(),
        a != b,
        !a.subtype_is_wildcard(),
        !b.subtype_is_wildcard(),
        !(a matches ReferenceType::Css(CssReferenceSubType::AtImport(_)) && b matches
        ReferenceType::Css(CssReferenceSubType::AtImport(_))),
    ensures
        !a.includes_spec(b),
{
}

/// `AtImport` matching is deliberately coarse: any `Css(AtImport(_))`
/// accepts any other, whatever context either side carries.
pub proof fn lemma_at_import_coarse(c1: Option<Box<ImportContext>>, c2: Option<Box<ImportContext>>)
    ensures
        ReferenceType::Css(CssReferenceSubType::AtImport(c1)).includes_spec(
            ReferenceType::Css(CssReferenceSubType::AtImport(c2)),
        ),
{
}

/// Folding the same attributes twice gives the same context as folding
/// them once: re-adding an existing element is a no-op.
pub proof fn lemma_add_idempotent(
    c: ImportContextView,
    layer: Option<Seq<char>>,
    media: Option<Seq<char>>,
    supports: Option<Seq<char>>,
)
    ensures
        c.add(layer, media, supports).add(layer, media, supports) == c.add(layer, media, supports),
{
    lemma_append_if_new_idempotent(c.layers, layer);
    lemma_append_if_new_idempotent(c.media, media);
    lemma_append_if_new_idempotent(c.supports, supports);
}

proof fn lemma_append_if_new_idempotent(s: Seq<Seq<char>>, x: Option<Seq<char>>)
    ensures
        append_if_new(append_if_new(s, x), x) == append_if_new(s, x),
{
    match x {
        Some(v) => {
            if !s.contains(v) {
                assert(s.push(v)[s.len() as int] == v);
                assert(s.push(v).contains(v));
            }
        },
        None => {},
    }
}

/// Arrival order is preserved: two new distinct layers end up in the
/// order in which they arrived, after the existing elements.
pub proof fn lemma_add_order_preserved(c: ImportContextView, a: Seq<char>, b: Seq<char>)
    requires
        !c.layers.contains(a),
        !c.layers.contains(b),
        a != b,
    ensures
        c.add(Some(a), None, None).add(Some(b), None, None).layers == c.layers.push(a).push(b),
{
    if c.layers.push(a).contains(b) {
        let i = choose|i: int| 0 <= i < c.layers.push(a).len() && c.layers.push(a)[i] == b;
        if i < c.layers.len() {
            assert(c.layers[i] == b);
            assert(c.layers.contains(b));
        }
        assert(false);
    }
}

/// Folding an all-absent attribute set is a no-op: the context's content
/// is unchanged.
pub proof fn lemma_add_absent_noop(c: ImportContextView)
    ensures
        c.add(None, None, None) == c,
{
}

} // verus!
