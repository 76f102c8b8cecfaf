//! The closed attribute-name enumeration and the sparse attribute store.
//!
//! Every supported markup attribute name is one variant of [`Attr`]; each
//! variant maps to exactly one canonical attribute-name string. A sparse
//! [`AttrMap`] stores free-form attribute values under those keys. Entries
//! keep the order of first insertion, and serialization writes them in that
//! stored order, so the emitted markup is a deterministic function of the
//! store's contents.
use vstd::prelude::*;
use vstd::string::StringExecFns;

use crate::error::Error;
use crate::xml::{attr_escaped, bs_attrs, bs_name, push_str_attribute};

pub mod length_adjust;
pub mod referrer_policy;

verus! {

/// Instance having a canonical markup attribute name.
pub trait AttrKey {
    /// The canonical attribute-name string, as a sequence of characters.
    spec fn spec_attr_key(&self) -> Seq<char>;

    /// Access the canonical attribute name of the current instance.
    fn attr_key(&self) -> (r: &str)
        ensures
            r@ == self.spec_attr_key(),
    ;
}

/// SVG attributes: the closed set of markup attribute names the sparse
/// store can carry.
#[derive(PartialEq, Eq, Structural, Clone, Copy)]
pub enum Attr {
    Id,
    Lang,
    TabIndex,
    ClassName,
    Style,
    ReqExt,
    SysLang,
    AlignmentBaseline,
    BaselineShift,
    ClipPath,
    ClipRule,
    Color,
    ColorInterpolation,
    ColorInterpolationFilters,
    ColorRendering,
    Cursor,
    Direction,
    Display,
    DominantBaseline,
    Fill,
    FillOpacity,
    FillRule,
    Filter,
    FloodColor,
    FloodOpacity,
    FontFamily,
    FontSize,
    FontSizeAdjust,
    FontStretch,
    FontStyle,
    FontVariant,
    FontWeight,
    ImageRendering,
    LetterSpacing,
    LightingColor,
    MarkerEnd,
    MarkerMiddle,
    MarkerStart,
    Mask,
    Opacity,
    Overflow,
    PointerEvents,
    ShapeRendering,
    SolidColor,
    SolidOpacity,
    StopColor,
    StopOpacity,
    Stroke,
    StrokeDashArray,
    StrokeDashOffset,
    StrokeLineCap,
    StrokeLineJoin,
    StrokeMiterLimit,
    StrokeOpacity,
    StrokeWidth,
    TextAnchor,
    TextDecoration,
    TextRendering,
    Transform,
    UnicodeBidi,
    VectorEffect,
    Visibility,
    WordSpacing,
    WritingMode,
    OnBegin,
    OnEnd,
    OnRepeat,
    OnAbort,
    OnScroll,
    OnUnload,
    OnCopy,
    OnCut,
    OnPaste,
    OnCancel,
    OnCanPlay,
    OnCanPlayThrough,
    OnChange,
    OnClick,
    OnClose,
    OnCueChange,
    OnDoubleClick,
    OnDrag,
    OnDragEnd,
    OnDragEnter,
    OnDragLeave,
    OnDragOver,
    OnDragStart,
    OnDrop,
    OnDurationChange,
    OnEmptied,
    OnEnded,
    OnError,
    OnFocus,
    OnInput,
    OnInvalid,
    OnKeyDown,
    OnKeyPress,
    OnKeyUp,
    OnLoad,
    OnLoadedData,
    OnLoadedMetadata,
    OnLoadStart,
    OnMouseDown,
    OnMouseEnter,
    OnMouseLeave,
    OnMouseMove,
    OnMouseOut,
    OnMouseOver,
    OnMouseUp,
    OnMouseWheel,
    OnPause,
    OnPlay,
    OnPlaying,
    OnProgress,
    OnRateChange,
    OnReset,
    OnResize,
    OnSought,
    OnSeeking,
    OnSelect,
    OnShow,
    OnStalled,
    OnSubmit,
    OnSuspend,
    OnTimeUpdate,
    OnToggle,
    OnVolumeChange,
    OnWaiting,
    OnActivate,
    OnFocusIn,
    OnFocusOut,
}

impl AttrKey for Attr {
    open spec fn spec_attr_key(&self) -> Seq<char> {
        match self {
            Attr::Id => "id"@,
            Attr::Lang => "lang"@,
            Attr::TabIndex => "tabindex"@,
            Attr::ClassName => "class"@,
            Attr::Style => "style"@,
            Attr::ReqExt => "requiredExtensions"@,
            Attr::SysLang => "systemLanguage"@,
            Attr::AlignmentBaseline => "alignment-baseline"@,
            Attr::BaselineShift => "baseline-shift"@,
            Attr::ClipPath => "clip-path"@,
            Attr::ClipRule => "clip-rule"@,
            Attr::Color => "color"@,
            Attr::ColorInterpolation => "color-interpolation"@,
            Attr::ColorInterpolationFilters => "color-interpolation-filters"@,
            Attr::ColorRendering => "color-rendering"@,
            Attr::Cursor => "cursor"@,
            Attr::Direction => "direction"@,
            Attr::Display => "display"@,
            Attr::DominantBaseline => "dominant-baseline"@,
            Attr::Fill => "fill"@,
            Attr::FillOpacity => "fill-opacity"@,
            Attr::FillRule => "fill-rule"@,
            Attr::Filter => "filter"@,
            Attr::FloodColor => "flood-color"@,
            Attr::FloodOpacity => "flood-opacity"@,
            Attr::FontFamily => "font-family"@,
            Attr::FontSize => "font-size"@,
            Attr::FontSizeAdjust => "font-size-adjust"@,
            Attr::FontStretch => "font-stretch"@,
            Attr::FontStyle => "font-style"@,
            Attr::FontVariant => "font-variant"@,
            Attr::FontWeight => "font-weight"@,
            Attr::ImageRendering => "image-rendering"@,
            Attr::LetterSpacing => "letter-spacing"@,
            Attr::LightingColor => "lighting-color"@,
            Attr::MarkerEnd => "marker-end"@,
            Attr::MarkerMiddle => "marker-mid"@,
            Attr::MarkerStart => "marker-start"@,
            Attr::Mask => "mask"@,
            Attr::Opacity => "opacity"@,
            Attr::Overflow => "overflow"@,
            Attr::PointerEvents => "pointer-events"@,
            Attr::ShapeRendering => "shape-rendering"@,
            Attr::SolidColor => "solid-color"@,
            Attr::SolidOpacity => "solid-opacity"@,
            Attr::StopColor => "stop-color"@,
            Attr::StopOpacity => "stop-opacity"@,
            Attr::Stroke => "stroke"@,
            Attr::StrokeDashArray => "stroke-dasharray"@,
            Attr::StrokeDashOffset => "stroke-dashoffset"@,
            Attr::StrokeLineCap => "stroke-linecap"@,
            Attr::StrokeLineJoin => "stroke-linejoin"@,
            Attr::StrokeMiterLimit => "stroke-miterlimit"@,
            Attr::StrokeOpacity => "stroke-opacity"@,
            Attr::StrokeWidth => "stroke-width"@,
            Attr::TextAnchor => "text-anchor"@,
            Attr::TextDecoration => "text-decoration"@,
            Attr::TextRendering => "text-rendering"@,
            Attr::Transform => "transform"@,
            Attr::UnicodeBidi => "unicode-bidi"@,
            Attr::VectorEffect => "vector-effect"@,
            Attr::Visibility => "visibility"@,
            Attr::WordSpacing => "word-spacing"@,
            Attr::WritingMode => "writing-mode"@,
            Attr::OnBegin => "onbegin"@,
            Attr::OnEnd => "onend"@,
            Attr::OnRepeat => "onrepeat"@,
            Attr::OnAbort => "onabort"@,
            Attr::OnScroll => "onscroll"@,
            Attr::OnUnload => "onunload"@,
            Attr::OnCopy => "oncopy"@,
            Attr::OnCut => "oncut"@,
            Attr::OnPaste => "onpaste"@,
            Attr::OnCancel => "oncancel"@,
            Attr::OnCanPlay => "oncanplay"@,
            Attr::OnCanPlayThrough => "oncanplaythrough"@,
            Attr::OnChange => "onchange"@,
            Attr::OnClick => "onclick"@,
            Attr::OnClose => "onclose"@,
            Attr::OnCueChange => "oncuechange"@,
            Attr::OnDoubleClick => "ondblclick"@,
            Attr::OnDrag => "ondrag"@,
            Attr::OnDragEnd => "ondragend"@,
            Attr::OnDragEnter => "ondragenter"@,
            Attr::OnDragLeave => "ondragleave"@,
            Attr::OnDragOver => "ondragover"@,
            Attr::OnDragStart => "ondragstart"@,
            Attr::OnDrop => "ondrop"@,
            Attr::OnDurationChange => "ondurationchange"@,
            Attr::OnEmptied => "onemptied"@,
            Attr::OnEnded => "onended"@,
            Attr::OnError => "onerror"@,
            Attr::OnFocus => "onfocus"@,
            Attr::OnInput => "oninput"@,
            Attr::OnInvalid => "oninvalid"@,
            Attr::OnKeyDown => "onkeydown"@,
            Attr::OnKeyPress => "onkeypress"@,
            Attr::OnKeyUp => "onkeyup"@,
            Attr::OnLoad => "onload"@,
            Attr::OnLoadedData => "onloadeddata"@,
            Attr::OnLoadedMetadata => "onloadedmetadata"@,
            Attr::OnLoadStart => "onloadstart"@,
            Attr::OnMouseDown => "onmousedown"@,
            Attr::OnMouseEnter => "onmouseenter"@,
            Attr::OnMouseLeave => "onmouseleave"@,
            Attr::OnMouseMove => "onmousemove"@,
            Attr::OnMouseOut => "onmouseout"@,
            Attr::OnMouseOver => "onmouseover"@,
            Attr::OnMouseUp => "onmouseup"@,
            Attr::OnMouseWheel => "onmousewheel"@,
            Attr::OnPause => "onpause"@,
            Attr::OnPlay => "onplay"@,
            Attr::OnPlaying => "onplaying"@,
            Attr::OnProgress => "onprogress"@,
            Attr::OnRateChange => "onratechange"@,
            Attr::OnReset => "onreset"@,
            Attr::OnResize => "onresize"@,
            Attr::OnSought => "onseeked"@,
            Attr::OnSeeking => "onseeking"@,
            Attr::OnSelect => "onselect"@,
            Attr::OnShow => "onshow"@,
            Attr::OnStalled => "onstalled"@,
            Attr::OnSubmit => "onsubmit"@,
            Attr::OnSuspend => "onsuspend"@,
            Attr::OnTimeUpdate => "ontimeupdate"@,
            Attr::OnToggle => "ontoggle"@,
            Attr::OnVolumeChange => "onvolumechange"@,
            Attr::OnWaiting => "onwaiting"@,
            Attr::OnActivate => "onactivate"@,
            Attr::OnFocusIn => "onfocusin"@,
            Attr::OnFocusOut => "onfocusout"@,
        }
    }

    fn attr_key(&self) -> (r: &str) {
        match self {
            Attr::Id => "id",
            Attr::Lang => "lang",
            Attr::TabIndex => "tabindex",
            Attr::ClassName => "class",
            Attr::Style => "style",
            Attr::ReqExt => "requiredExtensions",
            Attr::SysLang => "systemLanguage",
            Attr::AlignmentBaseline => "alignment-baseline",
            Attr::BaselineShift => "baseline-shift",
            Attr::ClipPath => "clip-path",
            Attr::ClipRule => "clip-rule",
            Attr::Color => "color",
            Attr::ColorInterpolation => "color-interpolation",
            Attr::ColorInterpolationFilters => "color-interpolation-filters",
            Attr::ColorRendering => "color-rendering",
            Attr::Cursor => "cursor",
            Attr::Direction => "direction",
            Attr::Display => "display",
            Attr::DominantBaseline => "dominant-baseline",
            Attr::Fill => "fill",
            Attr::FillOpacity => "fill-opacity",
            Attr::FillRule => "fill-rule",
            Attr::Filter => "filter",
            Attr::FloodColor => "flood-color",
            Attr::FloodOpacity => "flood-opacity",
            Attr::FontFamily => "font-family",
            Attr::FontSize => "font-size",
            Attr::FontSizeAdjust => "font-size-adjust",
            Attr::FontStretch => "font-stretch",
            Attr::FontStyle => "font-style",
            Attr::FontVariant => "font-variant",
            Attr::FontWeight => "font-weight",
            Attr::ImageRendering => "image-rendering",
            Attr::LetterSpacing => "letter-spacing",
            Attr::LightingColor => "lighting-color",
            Attr::MarkerEnd => "marker-end",
            Attr::MarkerMiddle => "marker-mid",
            Attr::MarkerStart => "marker-start",
            Attr::Mask => "mask",
            Attr::Opacity => "opacity",
            Attr::Overflow => "overflow",
            Attr::PointerEvents => "pointer-events",
            Attr::ShapeRendering => "shape-rendering",
            Attr::SolidColor => "solid-color",
            Attr::SolidOpacity => "solid-opacity",
            Attr::StopColor => "stop-color",
            Attr::StopOpacity => "stop-opacity",
            Attr::Stroke => "stroke",
            Attr::StrokeDashArray => "stroke-dasharray",
            Attr::StrokeDashOffset => "stroke-dashoffset",
            Attr::StrokeLineCap => "stroke-linecap",
            Attr::StrokeLineJoin => "stroke-linejoin",
            Attr::StrokeMiterLimit => "stroke-miterlimit",
            Attr::StrokeOpacity => "stroke-opacity",
            Attr::StrokeWidth => "stroke-width",
            Attr::TextAnchor => "text-anchor",
            Attr::TextDecoration => "text-decoration",
            Attr::TextRendering => "text-rendering",
            Attr::Transform => "transform",
            Attr::UnicodeBidi => "unicode-bidi",
            Attr::VectorEffect => "vector-effect",
            Attr::Visibility => "visibility",
            Attr::WordSpacing => "word-spacing",
            Attr::WritingMode => "writing-mode",
            Attr::OnBegin => "onbegin",
            Attr::OnEnd => "onend",
            Attr::OnRepeat => "onrepeat",
            Attr::OnAbort => "onabort",
            Attr::OnScroll => "onscroll",
            Attr::OnUnload => "onunload",
            Attr::OnCopy => "oncopy",
            Attr::OnCut => "oncut",
            Attr::OnPaste => "onpaste",
            Attr::OnCancel => "oncancel",
            Attr::OnCanPlay => "oncanplay",
            Attr::OnCanPlayThrough => "oncanplaythrough",
            Attr::OnChange => "onchange",
            Attr::OnClick => "onclick",
            Attr::OnClose => "onclose",
            Attr::OnCueChange => "oncuechange",
            Attr::OnDoubleClick => "ondblclick",
            Attr::OnDrag => "ondrag",
            Attr::OnDragEnd => "ondragend",
            Attr::OnDragEnter => "ondragenter",
            Attr::OnDragLeave => "ondragleave",
            Attr::OnDragOver => "ondragover",
            Attr::OnDragStart => "ondragstart",
            Attr::OnDrop => "ondrop",
            Attr::OnDurationChange => "ondurationchange",
            Attr::OnEmptied => "onemptied",
            Attr::OnEnded => "onended",
            Attr::OnError => "onerror",
            Attr::OnFocus => "onfocus",
            Attr::OnInput => "oninput",
            Attr::OnInvalid => "oninvalid",
            Attr::OnKeyDown => "onkeydown",
            Attr::OnKeyPress => "onkeypress",
            Attr::OnKeyUp => "onkeyup",
            Attr::OnLoad => "onload",
            Attr::OnLoadedData => "onloadeddata",
            Attr::OnLoadedMetadata => "onloadedmetadata",
            Attr::OnLoadStart => "onloadstart",
            Attr::OnMouseDown => "onmousedown",
            Attr::OnMouseEnter => "onmouseenter",
            Attr::OnMouseLeave => "onmouseleave",
            Attr::OnMouseMove => "onmousemove",
            Attr::OnMouseOut => "onmouseout",
            Attr::OnMouseOver => "onmouseover",
            Attr::OnMouseUp => "onmouseup",
            Attr::OnMouseWheel => "onmousewheel",
            Attr::OnPause => "onpause",
            Attr::OnPlay => "onplay",
            Attr::OnPlaying => "onplaying",
            Attr::OnProgress => "onprogress",
            Attr::OnRateChange => "onratechange",
            Attr::OnReset => "onreset",
            Attr::OnResize => "onresize",
            Attr::OnSought => "onseeked",
            Attr::OnSeeking => "onseeking",
            Attr::OnSelect => "onselect",
            Attr::OnShow => "onshow",
            Attr::OnStalled => "onstalled",
            Attr::OnSubmit => "onsubmit",
            Attr::OnSuspend => "onsuspend",
            Attr::OnTimeUpdate => "ontimeupdate",
            Attr::OnToggle => "ontoggle",
            Attr::OnVolumeChange => "onvolumechange",
            Attr::OnWaiting => "onwaiting",
            Attr::OnActivate => "onactivate",
            Attr::OnFocusIn => "onfocusin",
            Attr::OnFocusOut => "onfocusout",
        }
    }
}

impl Attr {
    /// The canonical attribute name as an owned string.
    pub fn to_string(&self) -> (r: String)
        ensures
            r@ == self.spec_attr_key(),
    {
        String::from_str(self.attr_key())
    }
}

/// Entries hold pairwise-distinct keys.
pub open spec fn distinct_keys(s: Seq<(Attr, Seq<char>)>) -> bool {
    forall|i: int, j: int| 0 <= i < j < s.len() ==> (#[trigger] s[i]).0 != (#[trigger] s[j]).0
}

/// No entry carries the given key.
pub open spec fn key_absent(s: Seq<(Attr, Seq<char>)>, a: Attr) -> bool {
    forall|i: int| 0 <= i < s.len() ==> (#[trigger] s[i]).0 != a
}

/// The value stored under a key: the first entry that carries it, if any.
pub open spec fn entries_get(s: Seq<(Attr, Seq<char>)>, a: Attr) -> Option<Seq<char>>
    decreases s.len(),
{
    if s.len() == 0 {
        None
    } else if s[0].0 == a {
        Some(s[0].1)
    } else {
        entries_get(s.drop_first(), a)
    }
}

/// Entries after storing a value under a key: the first entry carrying the
/// key is overwritten in place, or a new entry is appended at the end.
pub open spec fn entries_insert(s: Seq<(Attr, Seq<char>)>, a: Attr, v: Seq<char>) -> Seq<
    (Attr, Seq<char>),
>
    decreases s.len(),
{
    if s.len() == 0 {
        seq![(a, v)]
    } else if s[0].0 == a {
        seq![(a, v)] + s.drop_first()
    } else {
        seq![s[0]] + entries_insert(s.drop_first(), a, v)
    }
}

/// Entries after removing a key: the first entry carrying it disappears.
pub open spec fn entries_remove(s: Seq<(Attr, Seq<char>)>, a: Attr) -> Seq<(Attr, Seq<char>)>
    decreases s.len(),
{
    if s.len() == 0 {
        Seq::empty()
    } else if s[0].0 == a {
        s.drop_first()
    } else {
        seq![s[0]] + entries_remove(s.drop_first(), a)
    }
}

proof fn lemma_entries_get_at(s: Seq<(Attr, Seq<char>)>, a: Attr, i: int)
    requires
        0 <= i < s.len(),
        s[i].0 == a,
        forall|j: int| 0 <= j < i ==> (#[trigger] s[j]).0 != a,
    ensures
        entries_get(s, a) == Some(s[i].1),
    decreases i,
{
    if i > 0 {
        assert(forall|j: int| 0 <= j < i - 1 ==> (#[trigger] s.drop_first()[j]).0 != a);
        lemma_entries_get_at(s.drop_first(), a, i - 1);
    }
}

proof fn lemma_key_absent_get_none(s: Seq<(Attr, Seq<char>)>, a: Attr)
    requires
        key_absent(s, a),
    ensures
        entries_get(s, a) is None,
    decreases s.len(),
{
    if s.len() > 0 {
        assert(s[0].0 != a);
        lemma_key_absent_get_none(s.drop_first(), a);
    }
}

proof fn lemma_entries_insert_at(s: Seq<(Attr, Seq<char>)>, a: Attr, v: Seq<char>, i: int)
    requires
        0 <= i < s.len(),
        s[i].0 == a,
        forall|j: int| 0 <= j < i ==> (#[trigger] s[j]).0 != a,
    ensures
        entries_insert(s, a, v) == s.update(i, (a, v)),
    decreases i,
{
    if i == 0 {
        assert(entries_insert(s, a, v) =~= s.update(0, (a, v)));
    } else {
        assert(forall|j: int| 0 <= j < i - 1 ==> (#[trigger] s.drop_first()[j]).0 != a);
        lemma_entries_insert_at(s.drop_first(), a, v, i - 1);
        assert(entries_insert(s, a, v) =~= s.update(i, (a, v)));
    }
}

proof fn lemma_entries_insert_absent(s: Seq<(Attr, Seq<char>)>, a: Attr, v: Seq<char>)
    requires
        key_absent(s, a),
    ensures
        entries_insert(s, a, v) == s.push((a, v)),
    decreases s.len(),
{
    if s.len() == 0 {
        assert(entries_insert(s, a, v) =~= s.push((a, v)));
    } else {
        assert(s[0].0 != a);
        assert(key_absent(s.drop_first(), a));
        lemma_entries_insert_absent(s.drop_first(), a, v);
        assert(entries_insert(s, a, v) =~= s.push((a, v)));
    }
}

proof fn lemma_entries_remove_at(s: Seq<(Attr, Seq<char>)>, a: Attr, i: int)
    requires
        0 <= i < s.len(),
        s[i].0 == a,
        forall|j: int| 0 <= j < i ==> (#[trigger] s[j]).0 != a,
    ensures
        entries_remove(s, a) == s.remove(i),
    decreases i,
{
    if i == 0 {
        assert(entries_remove(s, a) =~= s.remove(0));
    } else {
        assert(forall|j: int| 0 <= j < i - 1 ==> (#[trigger] s.drop_first()[j]).0 != a);
        lemma_entries_remove_at(s.drop_first(), a, i - 1);
        assert(entries_remove(s, a) =~= s.remove(i));
    }
}

proof fn lemma_entries_remove_absent(s: Seq<(Attr, Seq<char>)>, a: Attr)
    requires
        key_absent(s, a),
    ensures
        entries_remove(s, a) == s,
    decreases s.len(),
{
    if s.len() > 0 {
        assert(s[0].0 != a);
        assert(key_absent(s.drop_first(), a));
        lemma_entries_remove_absent(s.drop_first(), a);
        assert(entries_remove(s, a) =~= s);
    } else {
        assert(entries_remove(s, a) =~= s);
    }
}

proof fn lemma_entries_insert_key_absent(s: Seq<(Attr, Seq<char>)>, a: Attr, v: Seq<char>, x: Attr)
    requires
        key_absent(s, x),
        x != a,
    ensures
        key_absent(entries_insert(s, a, v), x),
    decreases s.len(),
{
    if s.len() > 0 && s[0].0 != a {
        assert(key_absent(s.drop_first(), x));
        lemma_entries_insert_key_absent(s.drop_first(), a, v, x);
        assert forall|i: int| 0 <= i < entries_insert(s, a, v).len() implies (#[trigger] entries_insert(
            s,
            a,
            v,
        )[i]).0 != x by {
            if i > 0 {
                assert(entries_insert(s, a, v)[i] == entries_insert(s.drop_first(), a, v)[i - 1]);
            }
        }
    }
}

/// Law: overwriting a key keeps all keys pairwise distinct, and a lookup of
/// that key afterwards yields exactly the stored value.
pub proof fn lemma_entries_insert_distinct(s: Seq<(Attr, Seq<char>)>, a: Attr, v: Seq<char>)
    requires
        distinct_keys(s),
    ensures
        distinct_keys(entries_insert(s, a, v)),
        entries_get(entries_insert(s, a, v), a) == Some(v),
    decreases s.len(),
{
    let t = entries_insert(s, a, v);
    assert(t[0] == if s.len() == 0 || s[0].0 == a {
        (a, v)
    } else {
        s[0]
    });
    if s.len() == 0 {
        assert(distinct_keys(t));
    } else if s[0].0 == a {
        assert(forall|j: int| 0 <= j < s.drop_first().len() ==> (#[trigger] s.drop_first()[j])
            == s[j + 1]);
        assert(key_absent(s.drop_first(), a));
        assert forall|i: int, j: int| 0 <= i < j < t.len() implies (#[trigger] t[i]).0
            != (#[trigger] t[j]).0 by {
            if i > 0 {
                assert(t[i] == s.drop_first()[i - 1]);
            }
            assert(t[j] == s.drop_first()[j - 1]);
        }
    } else {
        assert(forall|j: int| 0 <= j < s.drop_first().len() ==> (#[trigger] s.drop_first()[j])
            == s[j + 1]);
        assert(distinct_keys(s.drop_first()));
        assert(key_absent(s.drop_first(), s[0].0));
        lemma_entries_insert_distinct(s.drop_first(), a, v);
        lemma_entries_insert_key_absent(s.drop_first(), a, v, s[0].0);
        let rest = entries_insert(s.drop_first(), a, v);
        assert forall|i: int, j: int| 0 <= i < j < t.len() implies (#[trigger] t[i]).0
            != (#[trigger] t[j]).0 by {
            if i > 0 {
                assert(t[i] == rest[i - 1]);
            }
            assert(t[j] == rest[j - 1]);
        }
        assert(t.drop_first() =~= rest);
        assert(entries_get(t, a) == entries_get(rest, a));
    }
}

proof fn lemma_entries_remove_key_absent(s: Seq<(Attr, Seq<char>)>, a: Attr, x: Attr)
    requires
        key_absent(s, x),
    ensures
        key_absent(entries_remove(s, a), x),
    decreases s.len(),
{
    if s.len() > 0 && s[0].0 != a {
        assert(key_absent(s.drop_first(), x));
        lemma_entries_remove_key_absent(s.drop_first(), a, x);
        let t = entries_remove(s, a);
        assert forall|i: int| 0 <= i < t.len() implies (#[trigger] t[i]).0 != x by {
            if i > 0 {
                assert(t[i] == entries_remove(s.drop_first(), a)[i - 1]);
            }
        }
    }
}

/// Law: removing a key from a store with pairwise-distinct keys leaves a
/// store that is still distinct and carries no entry under that key.
pub proof fn lemma_entries_remove_distinct(s: Seq<(Attr, Seq<char>)>, a: Attr)
    requires
        distinct_keys(s),
    ensures
        distinct_keys(entries_remove(s, a)),
        key_absent(entries_remove(s, a), a),
        entries_get(entries_remove(s, a), a) is None,
    decreases s.len(),
{
    let t = entries_remove(s, a);
    if s.len() == 0 {
    } else {
        assert(forall|j: int| 0 <= j < s.drop_first().len() ==> (#[trigger] s.drop_first()[j])
            == s[j + 1]);
        assert(distinct_keys(s.drop_first()));
        if s[0].0 == a {
            assert(key_absent(s.drop_first(), a));
        } else {
            lemma_entries_remove_distinct(s.drop_first(), a);
            lemma_entries_remove_key_absent(s.drop_first(), a, s[0].0);
            let rest = entries_remove(s.drop_first(), a);
            assert forall|i: int, j: int| 0 <= i < j < t.len() implies (#[trigger] t[i]).0
                != (#[trigger] t[j]).0 by {
                if i > 0 {
                    assert(t[i] == rest[i - 1]);
                }
                assert(t[j] == rest[j - 1]);
            }
            assert forall|i: int| 0 <= i < t.len() implies (#[trigger] t[i]).0 != a by {
                if i > 0 {
                    assert(t[i] == rest[i - 1]);
                }
            }
        }
    }
    lemma_key_absent_get_none(t, a);
}

/// Law: storing a value under a key and then removing that key leaves a
/// store with no entry under the key at all, so the attribute can no longer
/// appear in any serialization of the store.
pub proof fn lemma_insert_then_remove_leaves_no_key(
    s: Seq<(Attr, Seq<char>)>,
    a: Attr,
    v: Seq<char>,
)
    requires
        distinct_keys(s),
    ensures
        key_absent(entries_remove(entries_insert(s, a, v), a), a),
        entries_get(entries_remove(entries_insert(s, a, v), a), a) is None,
{
    lemma_entries_insert_distinct(s, a, v);
    lemma_entries_remove_distinct(entries_insert(s, a, v), a);
}

/// A sparse attribute store: attribute keys mapped to string values, kept
/// in first-insertion order with pairwise-distinct keys.
pub struct AttrMap {
    entries: Vec<(Attr, String)>,
}

impl View for AttrMap {
    type V = Seq<(Attr, Seq<char>)>;

    closed spec fn view(&self) -> Seq<(Attr, Seq<char>)> {
        self.entries@.map_values(|e: (Attr, String)| (e.0, e.1@))
    }
}

impl AttrMap {
    #[verifier::type_invariant]
    spec fn wf(self) -> bool {
        distinct_keys(self@)
    }

    /// Create an empty store.
    pub fn new() -> (r: AttrMap)
        ensures
            r@ == Seq::<(Attr, Seq<char>)>::empty(),
    {
        let r = AttrMap { entries: Vec::new() };
        proof {
            assert(r@ =~= Seq::<(Attr, Seq<char>)>::empty());
        }
        r
    }

    /// Look the value stored under a key up.
    pub fn get<'a>(&'a self, attr: &Attr) -> (r: Option<&'a String>)
        ensures
            match r {
                Some(v) => entries_get(self@, *attr) == Some(v@),
                None => entries_get(self@, *attr) is None,
            },
    {
        let n = self.entries.len();
        let mut i: usize = 0;
        proof {
            assert(self@.skip(0) =~= self@);
        }
        while i < n
            invariant
                n == self.entries.len(),
                i <= n,
                entries_get(self@, *attr) == entries_get(self@.skip(i as int), *attr),
            decreases n - i,
        {
            if self.entries[i].0 == *attr {
                proof {
                    assert(self@.skip(i as int)[0] == self@[i as int]);
                    assert(self@[i as int].1 == self.entries@[i as int].1@);
                }
                return Some(&self.entries[i].1);
            }
            proof {
                assert(self@.skip(i as int)[0] == self@[i as int]);
                assert(self@.skip(i as int).drop_first() =~= self@.skip(i + 1 as int));
            }
            i += 1;
        }
        proof {
            assert(self@.skip(n as int) =~= Seq::<(Attr, Seq<char>)>::empty());
        }
        None
    }

    /// Store a value under a key, overwriting in place or appending.
    pub fn insert(&mut self, attr: Attr, value: &str)
        ensures
            final(self)@ == entries_insert(old(self)@, attr, value@),
    {
        proof {
            use_type_invariant(&*self);
        }
        let ghost s0 = old(self)@;
        let owned = String::from_str(value);
        let mut entries: Vec<(Attr, String)> = Vec::new();
        core::mem::swap(&mut entries, &mut self.entries);
        proof {
            assert(s0 =~= entries@.map_values(|e: (Attr, String)| (e.0, e.1@)));
        }
        let n = entries.len();
        let mut i: usize = 0;
        while i < n && !(entries[i].0 == attr)
            invariant
                n == entries.len(),
                i <= n,
                s0 == entries@.map_values(|e: (Attr, String)| (e.0, e.1@)),
                forall|j: int| 0 <= j < i ==> (#[trigger] s0[j]).0 != attr,
            decreases n - i,
        {
            i += 1;
        }
        if i < n {
            let ghost before = entries@;
            let _replaced = entries.remove(i);
            entries.insert(i, (attr, owned));
            proof {
                let s1 = s0.update(i as int, (attr, value@));
                assert(entries@ =~= before.update(i as int, (attr, owned)));
                assert(entries@.map_values(|e: (Attr, String)| (e.0, e.1@)) =~= s1);
                assert(s0[i as int].0 == attr);
                lemma_entries_insert_at(s0, attr, value@, i as int);
                assert forall|p: int, q: int| 0 <= p < q < s1.len() implies (#[trigger] s1[p]).0
                    != (#[trigger] s1[q]).0 by {
                    assert(s1[p].0 == s0[p].0);
                    assert(s1[q].0 == s0[q].0);
                }
            }
        } else {
            entries.push((attr, owned));
            proof {
                let s1 = s0.push((attr, value@));
                assert(key_absent(s0, attr));
                lemma_entries_insert_absent(s0, attr, value@);
                assert(entries@.map_values(|e: (Attr, String)| (e.0, e.1@)) =~= s1);
                assert forall|p: int, q: int| 0 <= p < q < s1.len() implies (#[trigger] s1[p]).0
                    != (#[trigger] s1[q]).0 by {
                    if q < s1.len() - 1 {
                        assert(s1[p] == s0[p] && s1[q] == s0[q]);
                    } else {
                        assert(s1[p] == s0[p] && s1[q].0 == attr);
                    }
                }
            }
        }
        self.entries = entries;
    }

    /// Remove the entry stored under a key, handing its value back.
    pub fn remove(&mut self, attr: &Attr) -> (r: Option<String>)
        ensures
            final(self)@ == entries_remove(old(self)@, *attr),
            match r {
                Some(v) => entries_get(old(self)@, *attr) == Some(v@),
                None => entries_get(old(self)@, *attr) is None,
            },
    {
        proof {
            use_type_invariant(&*self);
        }
        let ghost s0 = old(self)@;
        let mut entries: Vec<(Attr, String)> = Vec::new();
        core::mem::swap(&mut entries, &mut self.entries);
        proof {
            assert(s0 =~= entries@.map_values(|e: (Attr, String)| (e.0, e.1@)));
        }
        let n = entries.len();
        let mut i: usize = 0;
        while i < n && !(entries[i].0 == *attr)
            invariant
                n == entries.len(),
                i <= n,
                s0 == entries@.map_values(|e: (Attr, String)| (e.0, e.1@)),
                forall|j: int| 0 <= j < i ==> (#[trigger] s0[j]).0 != *attr,
            decreases n - i,
        {
            i += 1;
        }
        if i < n {
            let ghost before = entries@;
            let removed = entries.remove(i);
            proof {
                let s1 = s0.remove(i as int);
                assert(s0[i as int].0 == *attr);
                lemma_entries_get_at(s0, *attr, i as int);
                lemma_entries_remove_at(s0, *attr, i as int);
                assert(entries@.map_values(|e: (Attr, String)| (e.0, e.1@)) =~= s1);
                assert forall|p: int, q: int| 0 <= p < q < s1.len() implies (#[trigger] s1[p]).0
                    != (#[trigger] s1[q]).0 by {
                    let p0: int = if p < i { p } else { p + 1 };
                    let q0: int = if q < i { q } else { q + 1 };
                    assert(s1[p] == s0[p0]);
                    assert(s1[q] == s0[q0]);
                }
                assert(removed.1@ == s0[i as int].1);
            }
            self.entries = entries;
            Some(removed.1)
        } else {
            proof {
                assert(key_absent(s0, *attr));
                lemma_key_absent_get_none(s0, *attr);
                lemma_entries_remove_absent(s0, *attr);
            }
            self.entries = entries;
            None
        }
    }
}

/// The attribute list a store contributes to a start tag: each entry as a
/// (canonical name, escaped value) pair, in stored order.
pub open spec fn attrs_of_entries(s: Seq<(Attr, Seq<char>)>) -> Seq<(Seq<char>, Seq<char>)> {
    s.map_values(|e: (Attr, Seq<char>)| (e.0.spec_attr_key(), attr_escaped(e.1)))
}

/// Law: the serialized attribute list of a store is positional — the
/// attribute at each index is exactly the canonical name and escaped value
/// of the entry at that index, and nothing else is emitted. Together with
/// [`lemma_insert_then_remove_leaves_no_key`], a key that was stored and
/// then removed contributes no attribute to any later serialization.
pub proof fn lemma_attrs_of_entries_positional(s: Seq<(Attr, Seq<char>)>)
    ensures
        attrs_of_entries(s).len() == s.len(),
        forall|i: int| 0 <= i < s.len() ==> attrs_of_entries(s)[i] == (
            (#[trigger] s[i]).0.spec_attr_key(),
            attr_escaped(s[i].1),
        ),
{
}

/// Instance whose contents can be written into a start tag as attributes.
pub trait WriteInAttr {
    /// The attribute list the instance contributes, in order.
    spec fn spec_attrs_in(&self) -> Seq<(Seq<char>, Seq<char>)>;

    /// Append every contributed attribute to the start tag.
    fn write_in(&self, bs: &mut quick_xml::events::BytesStart<'static>) -> (r: Result<(), Error>)
        ensures
            r is Ok,
            bs_name(*final(bs)) == bs_name(*old(bs)),
            bs_attrs(*final(bs)) == bs_attrs(*old(bs)) + self.spec_attrs_in(),
    ;
}

impl WriteInAttr for AttrMap {
    open spec fn spec_attrs_in(&self) -> Seq<(Seq<char>, Seq<char>)> {
        attrs_of_entries(self@)
    }

    fn write_in(&self, bs: &mut quick_xml::events::BytesStart<'static>) -> (r: Result<(), Error>) {
        let n = self.entries.len();
        let mut i: usize = 0;
        proof {
            assert(attrs_of_entries(self@.take(0)) =~= Seq::<(Seq<char>, Seq<char>)>::empty());
            assert(bs_attrs(*bs) =~= bs_attrs(*old(bs)) + attrs_of_entries(self@.take(0)));
        }
        while i < n
            invariant
                n == self.entries.len(),
                i <= n,
                bs_name(*bs) == bs_name(*old(bs)),
                bs_attrs(*bs) == bs_attrs(*old(bs)) + attrs_of_entries(self@.take(i as int)),
            decreases n - i,
        {
            let key = self.entries[i].0.attr_key();
            push_str_attribute(bs, key, self.entries[i].1.as_str());
            proof {
                assert(self@.take(i + 1 as int) =~= self@.take(i as int).push(self@[i as int]));
                assert(self@[i as int] == (self.entries@[i as int].0, self.entries@[i as int].1@));
                assert(attrs_of_entries(self@.take(i + 1 as int)) =~= attrs_of_entries(
                    self@.take(i as int),
                ).push((self.entries@[i as int].0.spec_attr_key(), attr_escaped(self@[i as int].1))));
                assert(bs_attrs(*bs) =~= bs_attrs(*old(bs)) + attrs_of_entries(
                    self@.take(i + 1 as int),
                ));
            }
            i += 1;
        }
        proof {
            assert(self@.take(n as int) =~= self@);
        }
        Ok(())
    }
}

/// The model of a lazily-allocated store: absent means "never touched",
/// which serializes exactly like an empty store but is a distinct state.
pub open spec fn lazy_view(m: Option<AttrMap>) -> Option<Seq<(Attr, Seq<char>)>> {
    match m {
        None => None,
        Some(x) => Some(x@),
    }
}

/// The entries of a lazily-allocated store; an absent store has none.
pub open spec fn lazy_entries(m: Option<Seq<(Attr, Seq<char>)>>) -> Seq<(Attr, Seq<char>)> {
    match m {
        None => Seq::empty(),
        Some(s) => s,
    }
}

/// Look a key up in a lazily-allocated store.
pub(crate) fn lazy_attr_get<'a>(m: &'a Option<AttrMap>, attr: &Attr) -> (r: Option<&'a str>)
    ensures
        match r {
            Some(v) => entries_get(lazy_entries(lazy_view(*m)), *attr) == Some(v@),
            None => entries_get(lazy_entries(lazy_view(*m)), *attr) is None,
        },
{
    match m {
        None => {
            proof {
                assert(entries_get(Seq::<(Attr, Seq<char>)>::empty(), *attr) is None);
            }
            None
        },
        Some(map) => match map.get(attr) {
            Some(v) => Some(v.as_str()),
            None => None,
        },
    }
}

/// Store a value in a lazily-allocated store, allocating it on first use.
pub(crate) fn lazy_attr_set(m: &mut Option<AttrMap>, attr: Attr, value: &str)
    ensures
        lazy_view(*final(m)) == Some(
            entries_insert(lazy_entries(lazy_view(*old(m))), attr, value@),
        ),
{
    let mut map = match m.take() {
        Some(x) => x,
        None => AttrMap::new(),
    };
    map.insert(attr, value);
    *m = Some(map);
}

/// Remove a key from a lazily-allocated store; an untouched store stays
/// untouched.
pub(crate) fn lazy_attr_pop(m: &mut Option<AttrMap>, attr: &Attr) -> (r: Option<String>)
    ensures
        match lazy_view(*old(m)) {
            Some(s) => lazy_view(*final(m)) == Some(entries_remove(s, *attr)),
            None => *final(m) is None,
        },
        match r {
            Some(v) => entries_get(lazy_entries(lazy_view(*old(m))), *attr) == Some(v@),
            None => entries_get(lazy_entries(lazy_view(*old(m))), *attr) is None,
        },
{
    match m {
        None => {
            proof {
                assert(entries_get(Seq::<(Attr, Seq<char>)>::empty(), *attr) is None);
            }
            None
        },
        Some(map) => map.remove(attr),
    }
}

/// Instance carrying a lazily-allocated sparse attribute store.
pub trait AccessAttr: Sized {
    /// The store itself.
    spec fn attr_map_field(&self) -> Option<AttrMap>;

    /// The same instance with its store replaced; everything else equal.
    spec fn with_attr_map(&self, m: Option<AttrMap>) -> Self;

    /// Read the value stored under a key.
    fn attr(&self, attr: &Attr) -> (r: Option<&str>)
        ensures
            match r {
                Some(v) => entries_get(lazy_entries(lazy_view(self.attr_map_field())), *attr)
                    == Some(v@),
                None => entries_get(lazy_entries(lazy_view(self.attr_map_field())), *attr) is None,
            },
    ;

    /// Store a value under a key, allocating the store on first use.
    fn set_attr(&mut self, attr: Attr, value: &str)
        ensures
            *final(self) == old(self).with_attr_map(final(self).attr_map_field()),
            lazy_view(final(self).attr_map_field()) == Some(
                entries_insert(lazy_entries(lazy_view(old(self).attr_map_field())), attr, value@),
            ),
    ;

    /// Remove the value stored under a key, handing it back.
    fn pop_attr(&mut self, attr: &Attr) -> (r: Option<String>)
        ensures
            *final(self) == old(self).with_attr_map(final(self).attr_map_field()),
            match lazy_view(old(self).attr_map_field()) {
                Some(s) => lazy_view(final(self).attr_map_field()) == Some(
                    entries_remove(s, *attr),
                ),
                None => final(self).attr_map_field() is None,
            },
            match r {
                Some(v) => entries_get(lazy_entries(lazy_view(old(self).attr_map_field())), *attr)
                    == Some(v@),
                None => entries_get(lazy_entries(lazy_view(old(self).attr_map_field())), *attr)
                    is None,
            },
    ;
}

} // verus!
