//! Path element (`<path>`) and the path-data mini-language encoder.
//!
//! A [`PathData`] is an ordered, append-only sequence of drawing commands.
//! The encoder turns it into the single-string `d` attribute grammar: one
//! clause per command — the one-letter mnemonic followed by its arguments
//! in a fixed, command-specific order, space-separated — and clauses joined
//! by single spaces. Flags encode as the digits `0`/`1`. Command order is
//! preserved verbatim; the encoder validates nothing. Because every
//! [`Number`] token is free of the grammar's two separators (spaces and
//! commas), distinct command sequences never encode to the same string.
use vstd::prelude::*;
use vstd::string::StringExecFns;

use crate::attr::{Attr, AttrMap, lazy_attr_get, lazy_attr_pop, lazy_attr_set, AccessAttr};
use crate::element::{
    convert_into_xml, lazy_xml, opt_attr, opt_number_attr, lazy_map_attrs, push_map_attrs,
    push_opt_attr, push_opt_number_attr, ChildKind, Children, ElementNode, TagName, TryToString,
    WriteXml, element_to_string,
};
use crate::error::Error;
use crate::xml::{
    bs_attrs, bs_name, bytes_start_new, empty_tag_text, write_event_empty, writer_out, writer_wf,
};
use crate::{join_texts, join_with, point_text, Number, Point};

verus! {

/// Path element (`<path>`)
pub struct Path {
    /// The `d` attribute: the encoded path data.
    pub data: Option<String>,
    /// The `pathLength` attribute.
    pub path_length: Option<Number>,
    /// Free-form attributes.
    pub attr: Option<AttrMap>,
}

impl Default for Path {
    fn default() -> (r: Self)
        ensures
            r.data is None,
            r.path_length is None,
            r.attr is None,
    {
        Self { data: None, path_length: None, attr: None }
    }
}

impl Path {
    /// Create a path element with nothing set.
    pub fn new() -> (r: Self)
        ensures
            r.data is None,
            r.path_length is None,
            r.attr is None,
    {
        Self::default()
    }

    /// Create a path element whose `d` attribute encodes the given path
    /// data.
    pub fn from_data(data: &PathData) -> (r: Self)
        ensures
            r.data matches Some(s) && s@ == path_text(data@),
            r.path_length is None,
            r.attr is None,
    {
        let mut p = Self::default();
        let encoded = data.to_string();
        p.set_data(Some(encoded.as_str()));
        p
    }

    /// Get `d`.
    pub fn data(&self) -> (r: Option<&str>)
        ensures
            match r {
                Some(v) => self.data matches Some(s) && v@ == s@,
                None => self.data is None,
            },
    {
        match &self.data {
            Some(d) => Some(d.as_str()),
            None => None,
        }
    }

    /// Set `d`.
    pub fn set_data(&mut self, value: Option<&str>)
        ensures
            match value {
                Some(v) => final(self).data matches Some(s) && s@ == v@,
                None => final(self).data is None,
            },
            final(self).path_length == old(self).path_length,
            final(self).attr == old(self).attr,
    {
        self.data = match value {
            Some(v) => Some(String::from_str(v)),
            None => None,
        };
    }

    /// Get `pathLength`.
    pub fn path_length(&self) -> (r: &Option<Number>)
        ensures
            r == &self.path_length,
    {
        &self.path_length
    }

    /// Set `pathLength`.
    pub fn set_path_length(&mut self, value: Option<Number>)
        ensures
            final(self).path_length == value,
            final(self).data == old(self).data,
            final(self).attr == old(self).attr,
    {
        self.path_length = value;
    }

    /// The attribute list of the start tag, in emission order.
    pub open spec fn spec_attrs(&self) -> Seq<(Seq<char>, Seq<char>)> {
        opt_attr("d"@, self.data) + opt_number_attr("pathLength"@, self.path_length)
            + lazy_map_attrs(self.attr)
    }
}

impl TagName for Path {
    open spec fn spec_tag_name(&self) -> Seq<char> {
        "path"@
    }

    fn tag_name(&self) -> (r: &str) {
        "path"
    }
}

impl WriteXml for Path {
    open spec fn spec_xml(&self) -> Seq<char> {
        lazy_xml("path"@, self.spec_attrs(), None)
    }

    fn write_xml(&self, writer: &mut quick_xml::Writer<std::io::Cursor<Vec<u8>>>) -> (r: Result<
        (),
        Error,
    >) {
        let tag = self.tag_name();
        let bs = self.build_start_tag();
        convert_into_xml(writer, bs, None, tag)
    }
}

impl Path {
    /// Assemble the start tag: named fields first, then the sparse store.
    fn build_start_tag(&self) -> (bs: quick_xml::events::BytesStart<'static>)
        ensures
            bs_name(bs) == "path"@,
            bs_attrs(bs) == self.spec_attrs(),
    {
        let mut bs = bytes_start_new(self.tag_name());
        push_opt_attr(&mut bs, "d", &self.data);
        push_opt_number_attr(&mut bs, "pathLength", &self.path_length);
        match push_map_attrs(&mut bs, &self.attr) {
            Ok(()) => {},
            Err(_) => {},
        }
        proof {
            assert(bs_attrs(bs) =~= self.spec_attrs());
        }
        bs
    }

    /// Write the element as the single self-closing tag it denotes.
    pub(crate) fn write_self_closing(
        &self,
        writer: &mut quick_xml::Writer<std::io::Cursor<Vec<u8>>>,
    ) -> (r: Result<(), Error>)
        requires
            writer_wf(*old(writer)),
        ensures
            r is Ok,
            writer_wf(*final(writer)),
            writer_out(*final(writer)) == writer_out(*old(writer)) + empty_tag_text(
                "path"@,
                self.spec_attrs(),
            ),
    {
        let bs = self.build_start_tag();
        write_event_empty(writer, bs)
    }
}

impl TryToString for Path {
    fn try_to_string(&self) -> (r: Result<String, Error>) {
        element_to_string(self)
    }
}

impl Children for Path {
    open spec fn children_field(&self) -> Option<Vec<ChildKind>> {
        None
    }

    open spec fn spec_supports_children(&self) -> bool {
        false
    }

    open spec fn with_children_list(&self, c: Option<Vec<ChildKind>>) -> Path {
        *self
    }

    fn children(&self) -> (r: Option<&Vec<ChildKind>>) {
        None
    }

    fn children_mut(&mut self) -> (r: Result<(), Error>) {
        Err(Error::NoChildrenExpected)
    }

    fn push_child(&mut self, child: ChildKind) -> (r: Result<(), Error>) {
        Err(Error::NoChildrenExpected)
    }
}

impl ElementNode for Path {

}

impl AccessAttr for Path {
    open spec fn attr_map_field(&self) -> Option<AttrMap> {
        self.attr
    }

    open spec fn with_attr_map(&self, m: Option<AttrMap>) -> Path {
        Path { attr: m, ..*self }
    }

    fn attr(&self, attr: &Attr) -> (r: Option<&str>) {
        lazy_attr_get(&self.attr, attr)
    }

    fn set_attr(&mut self, attr: Attr, value: &str) {
        lazy_attr_set(&mut self.attr, attr, value);
    }

    fn pop_attr(&mut self, attr: &Attr) -> (r: Option<String>) {
        lazy_attr_pop(&mut self.attr, attr)
    }
}

/// The large-arc flag of an elliptical arc: which of the two arc sweeps is
/// taken. Encodes as `0` (small) or `1` (large).
#[derive(PartialEq, Eq, Structural, Clone, Copy)]
pub enum LargeArcFlag {
    Small,
    Large,
}

/// The sweep flag of an elliptical arc: the turning direction. Encodes as
/// `0` (counter-clockwise) or `1` (clockwise).
#[derive(PartialEq, Eq, Structural, Clone, Copy)]
pub enum SweepFlag {
    CounterClockwise,
    Clockwise,
}

/// The digit a large-arc flag encodes to.
pub open spec fn laf_text(f: LargeArcFlag) -> Seq<char> {
    match f {
        LargeArcFlag::Small => "0"@,
        LargeArcFlag::Large => "1"@,
    }
}

/// The digit a sweep flag encodes to.
pub open spec fn sf_text(f: SweepFlag) -> Seq<char> {
    match f {
        SweepFlag::CounterClockwise => "0"@,
        SweepFlag::Clockwise => "1"@,
    }
}

/// One instruction of the path mini-language, carrying only the geometry it
/// needs.
pub enum PathCommandKind {
    MoveToAbs(Point),
    MoveToRel(Point),
    LineAbs(Point),
    LineRel(Point),
    HorizontalAbs(Number),
    HorizontalRel(Number),
    VerticalAbs(Number),
    VerticalRel(Number),
    CubicBezierAbs { con_start: Point, con_end: Point, to: Point },
    CubicBezierRel { d_con_start: Point, d_con_end: Point, d_to: Point },
    SmoothCubicBezierAbs { con_end: Point, to: Point },
    SmoothCubicBezierRel { d_con_end: Point, d_to: Point },
    QuadraticBezierAbs { con: Point, to: Point },
    QuadraticBezierRel { d_con: Point, d_to: Point },
    SmoothQuadraticBezierAbs(Point),
    SmoothQuadraticBezierRel(Point),
    EllipticalArcAbs {
        radius_x: Number,
        radius_y: Number,
        angle: Number,
        laf: LargeArcFlag,
        sf: SweepFlag,
        shift: Point,
    },
    EllipticalArcRel {
        radius_x: Number,
        radius_y: Number,
        angle: Number,
        laf: LargeArcFlag,
        sf: SweepFlag,
        d_shift: Point,
    },
    Close,
}

/// The one-letter mnemonic of a command: uppercase for absolute, lowercase
/// for relative, `Z` for close.
pub open spec fn cmd_mnemonic(c: PathCommandKind) -> Seq<char> {
    match c {
        PathCommandKind::MoveToAbs(_) => "M"@,
        PathCommandKind::MoveToRel(_) => "m"@,
        PathCommandKind::LineAbs(_) => "L"@,
        PathCommandKind::LineRel(_) => "l"@,
        PathCommandKind::HorizontalAbs(_) => "H"@,
        PathCommandKind::HorizontalRel(_) => "h"@,
        PathCommandKind::VerticalAbs(_) => "V"@,
        PathCommandKind::VerticalRel(_) => "v"@,
        PathCommandKind::CubicBezierAbs { .. } => "C"@,
        PathCommandKind::CubicBezierRel { .. } => "c"@,
        PathCommandKind::SmoothCubicBezierAbs { .. } => "S"@,
        PathCommandKind::SmoothCubicBezierRel { .. } => "s"@,
        PathCommandKind::QuadraticBezierAbs { .. } => "Q"@,
        PathCommandKind::QuadraticBezierRel { .. } => "q"@,
        PathCommandKind::SmoothQuadraticBezierAbs(_) => "T"@,
        PathCommandKind::SmoothQuadraticBezierRel(_) => "t"@,
        PathCommandKind::EllipticalArcAbs { .. } => "A"@,
        PathCommandKind::EllipticalArcRel { .. } => "a"@,
        PathCommandKind::Close => "Z"@,
    }
}

/// The tokens of one clause: the mnemonic, then the command's arguments in
/// their fixed order. Close has no arguments; an elliptical arc emits both
/// radii, the rotation angle, the two flags as digits, and the shift point.
pub open spec fn cmd_tokens(c: PathCommandKind) -> Seq<Seq<char>> {
    match c {
        PathCommandKind::MoveToAbs(p) => seq![cmd_mnemonic(c), point_text(p)],
        PathCommandKind::MoveToRel(p) => seq![cmd_mnemonic(c), point_text(p)],
        PathCommandKind::LineAbs(p) => seq![cmd_mnemonic(c), point_text(p)],
        PathCommandKind::LineRel(p) => seq![cmd_mnemonic(c), point_text(p)],
        PathCommandKind::HorizontalAbs(x) => seq![cmd_mnemonic(c), x@],
        PathCommandKind::HorizontalRel(x) => seq![cmd_mnemonic(c), x@],
        PathCommandKind::VerticalAbs(y) => seq![cmd_mnemonic(c), y@],
        PathCommandKind::VerticalRel(y) => seq![cmd_mnemonic(c), y@],
        PathCommandKind::CubicBezierAbs { con_start, con_end, to } => seq![
            cmd_mnemonic(c),
            point_text(con_start),
            point_text(con_end),
            point_text(to),
        ],
        PathCommandKind::CubicBezierRel { d_con_start, d_con_end, d_to } => seq![
            cmd_mnemonic(c),
            point_text(d_con_start),
            point_text(d_con_end),
            point_text(d_to),
        ],
        PathCommandKind::SmoothCubicBezierAbs { con_end, to } => seq![
            cmd_mnemonic(c),
            point_text(con_end),
            point_text(to),
        ],
        PathCommandKind::SmoothCubicBezierRel { d_con_end, d_to } => seq![
            cmd_mnemonic(c),
            point_text(d_con_end),
            point_text(d_to),
        ],
        PathCommandKind::QuadraticBezierAbs { con, to } => seq![
            cmd_mnemonic(c),
            point_text(con),
            point_text(to),
        ],
        PathCommandKind::QuadraticBezierRel { d_con, d_to } => seq![
            cmd_mnemonic(c),
            point_text(d_con),
            point_text(d_to),
        ],
        PathCommandKind::SmoothQuadraticBezierAbs(p) => seq![cmd_mnemonic(c), point_text(p)],
        PathCommandKind::SmoothQuadraticBezierRel(p) => seq![cmd_mnemonic(c), point_text(p)],
        PathCommandKind::EllipticalArcAbs { radius_x, radius_y, angle, laf, sf, shift } => seq![
            cmd_mnemonic(c),
            radius_x@,
            radius_y@,
            angle@,
            laf_text(laf),
            sf_text(sf),
            point_text(shift),
        ],
        PathCommandKind::EllipticalArcRel { radius_x, radius_y, angle, laf, sf, d_shift } => seq![
            cmd_mnemonic(c),
            radius_x@,
            radius_y@,
            angle@,
            laf_text(laf),
            sf_text(sf),
            point_text(d_shift),
        ],
        PathCommandKind::Close => seq![cmd_mnemonic(c)],
    }
}

/// One clause of the `d` grammar: the command's tokens joined by single
/// spaces.
pub open spec fn clause_text(c: PathCommandKind) -> Seq<char> {
    join_texts(cmd_tokens(c), " "@)
}

/// The whole `d` string: every command's clause, in order, joined by single
/// spaces.
pub open spec fn path_text(cs: Seq<PathCommandKind>) -> Seq<char> {
    join_texts(cs.map_values(|c: PathCommandKind| clause_text(c)), " "@)
}

/// The mnemonic of a command as an owned string.
fn to_cmd_str(cmd: &PathCommandKind) -> (r: String)
    ensures
        r@ == cmd_mnemonic(*cmd),
{
    match cmd {
        PathCommandKind::MoveToAbs(_) => String::from_str("M"),
        PathCommandKind::MoveToRel(_) => String::from_str("m"),
        PathCommandKind::LineAbs(_) => String::from_str("L"),
        PathCommandKind::LineRel(_) => String::from_str("l"),
        PathCommandKind::HorizontalAbs(_) => String::from_str("H"),
        PathCommandKind::HorizontalRel(_) => String::from_str("h"),
        PathCommandKind::VerticalAbs(_) => String::from_str("V"),
        PathCommandKind::VerticalRel(_) => String::from_str("v"),
        PathCommandKind::CubicBezierAbs { .. } => String::from_str("C"),
        PathCommandKind::CubicBezierRel { .. } => String::from_str("c"),
        PathCommandKind::SmoothCubicBezierAbs { .. } => String::from_str("S"),
        PathCommandKind::SmoothCubicBezierRel { .. } => String::from_str("s"),
        PathCommandKind::QuadraticBezierAbs { .. } => String::from_str("Q"),
        PathCommandKind::QuadraticBezierRel { .. } => String::from_str("q"),
        PathCommandKind::SmoothQuadraticBezierAbs(_) => String::from_str("T"),
        PathCommandKind::SmoothQuadraticBezierRel(_) => String::from_str("t"),
        PathCommandKind::EllipticalArcAbs { .. } => String::from_str("A"),
        PathCommandKind::EllipticalArcRel { .. } => String::from_str("a"),
        PathCommandKind::Close => String::from_str("Z"),
    }
}

/// An ordered, append-only sequence of path commands.
pub struct PathData {
    cmds: Vec<PathCommandKind>,
}

impl View for PathData {
    type V = Seq<PathCommandKind>;

    closed spec fn view(&self) -> Seq<PathCommandKind> {
        self.cmds@
    }
}

impl Default for PathData {
    fn default() -> (r: Self)
        ensures
            r@ == Seq::<PathCommandKind>::empty(),
    {
        PathData { cmds: Vec::new() }
    }
}

/// Law: path encoding is deterministic. The encoded string is a function of
/// the command sequence alone, so encoding the same sequence twice — or two
/// sequences that are equal — yields identical strings.
pub proof fn lemma_path_encoding_deterministic(a: &PathData, b: &PathData)
    requires
        a@ == b@,
    ensures
        path_text(a@) == path_text(b@),
{
}

impl PathData {
    /// Create an empty command sequence.
    pub fn new() -> (r: Self)
        ensures
            r@ == Seq::<PathCommandKind>::empty(),
    {
        PathData { cmds: Vec::new() }
    }

    /// Append an absolute move command (`M`).
    pub fn move_to(&mut self, point: Point)
        ensures
            final(self)@ == old(self)@.push(PathCommandKind::MoveToAbs(point)),
    {
        self.cmds.push(PathCommandKind::MoveToAbs(point));
    }

    /// Append a relative move command (`m`).
    pub fn move_to_rel(&mut self, delta: Point)
        ensures
            final(self)@ == old(self)@.push(PathCommandKind::MoveToRel(delta)),
    {
        self.cmds.push(PathCommandKind::MoveToRel(delta));
    }

    /// Append an absolute line command (`L`).
    pub fn draw_line(&mut self, to: Point)
        ensures
            final(self)@ == old(self)@.push(PathCommandKind::LineAbs(to)),
    {
        self.cmds.push(PathCommandKind::LineAbs(to));
    }

    /// Append a relative line command (`l`).
    pub fn draw_line_rel(&mut self, delta_to: Point)
        ensures
            final(self)@ == old(self)@.push(PathCommandKind::LineRel(delta_to)),
    {
        self.cmds.push(PathCommandKind::LineRel(delta_to));
    }

    /// Append an absolute horizontal-line command (`H`).
    pub fn draw_horizonal_line(&mut self, x: Number)
        ensures
            final(self)@ == old(self)@.push(PathCommandKind::HorizontalAbs(x)),
    {
        self.cmds.push(PathCommandKind::HorizontalAbs(x));
    }

    /// Append a relative horizontal-line command (`h`).
    pub fn draw_horizontal_line_rel(&mut self, dx: Number)
        ensures
            final(self)@ == old(self)@.push(PathCommandKind::HorizontalRel(dx)),
    {
        self.cmds.push(PathCommandKind::HorizontalRel(dx));
    }

    /// Append an absolute vertical-line command (`V`).
    pub fn draw_vertical_line(&mut self, y: Number)
        ensures
            final(self)@ == old(self)@.push(PathCommandKind::VerticalAbs(y)),
    {
        self.cmds.push(PathCommandKind::VerticalAbs(y));
    }

    /// Append a relative vertical-line command (`v`).
    pub fn draw_vertical_line_rel(&mut self, dy: Number)
        ensures
            final(self)@ == old(self)@.push(PathCommandKind::VerticalRel(dy)),
    {
        self.cmds.push(PathCommandKind::VerticalRel(dy));
    }

    /// Append an absolute cubic Bézier command (`C`).
    pub fn draw_cubic_bezier(&mut self, con_start: Point, con_end: Point, to: Point)
        ensures
            final(self)@ == old(self)@.push(
                PathCommandKind::CubicBezierAbs { con_start, con_end, to },
            ),
    {
        self.cmds.push(PathCommandKind::CubicBezierAbs { con_start, con_end, to });
    }

    /// Append a relative cubic Bézier command (`c`).
    pub fn draw_cubic_bezier_rel(&mut self, d_con_start: Point, d_con_end: Point, d_to: Point)
        ensures
            final(self)@ == old(self)@.push(
                PathCommandKind::CubicBezierRel { d_con_start, d_con_end, d_to },
            ),
    {
        self.cmds.push(PathCommandKind::CubicBezierRel { d_con_start, d_con_end, d_to });
    }

    /// Append an absolute smooth cubic Bézier command (`S`).
    pub fn draw_smooth_cubic_bezier(&mut self, con_end: Point, to: Point)
        ensures
            final(self)@ == old(self)@.push(
                PathCommandKind::SmoothCubicBezierAbs { con_end, to },
            ),
    {
        self.cmds.push(PathCommandKind::SmoothCubicBezierAbs { con_end, to });
    }

    /// Append a relative smooth cubic Bézier command (`s`).
    pub fn draw_smooth_cubic_bezier_rel(&mut self, d_con_end: Point, d_to: Point)
        ensures
            final(self)@ == old(self)@.push(
                PathCommandKind::SmoothCubicBezierRel { d_con_end, d_to },
            ),
    {
        self.cmds.push(PathCommandKind::SmoothCubicBezierRel { d_con_end, d_to });
    }

    /// Append an absolute quadratic Bézier command (`Q`).
    pub fn draw_quadratic_bezier(&mut self, con: Point, to: Point)
        ensures
            final(self)@ == old(self)@.push(PathCommandKind::QuadraticBezierAbs { con, to }),
    {
        self.cmds.push(PathCommandKind::QuadraticBezierAbs { con, to });
    }

    /// Append a relative quadratic Bézier command (`q`).
    pub fn draw_quadratic_bezier_rel(&mut self, d_con: Point, d_to: Point)
        ensures
            final(self)@ == old(self)@.push(PathCommandKind::QuadraticBezierRel { d_con, d_to }),
    {
        self.cmds.push(PathCommandKind::QuadraticBezierRel { d_con, d_to });
    }

    /// Append an absolute smooth quadratic Bézier command (`T`).
    pub fn draw_smooth_quadratic_bezier(&mut self, to: Point)
        ensures
            final(self)@ == old(self)@.push(PathCommandKind::SmoothQuadraticBezierAbs(to)),
    {
        self.cmds.push(PathCommandKind::SmoothQuadraticBezierAbs(to));
    }

    /// Append a relative smooth quadratic Bézier command (`t`).
    pub fn draw_smooth_quadratic_bezier_rel(&mut self, d_to: Point)
        ensures
            final(self)@ == old(self)@.push(PathCommandKind::SmoothQuadraticBezierRel(d_to)),
    {
        self.cmds.push(PathCommandKind::SmoothQuadraticBezierRel(d_to));
    }

    /// Append an absolute elliptical-arc command (`A`).
    pub fn draw_elliptical_arc(
        &mut self,
        rx: Number,
        ry: Number,
        angle: Number,
        large_arc_flag: LargeArcFlag,
        sweep_flag: SweepFlag,
        shift: Point,
    )
        ensures
            final(self)@ == old(self)@.push(
                PathCommandKind::EllipticalArcAbs {
                    radius_x: rx,
                    radius_y: ry,
                    angle,
                    laf: large_arc_flag,
                    sf: sweep_flag,
                    shift,
                },
            ),
    {
        self.cmds.push(
            PathCommandKind::EllipticalArcAbs {
                radius_x: rx,
                radius_y: ry,
                angle,
                laf: large_arc_flag,
                sf: sweep_flag,
                shift,
            },
        );
    }

    /// Append a relative elliptical-arc command (`a`).
    pub fn draw_elliptical_arc_rel(
        &mut self,
        rx: Number,
        ry: Number,
        angle: Number,
        large_arc_flag: LargeArcFlag,
        sweep_flag: SweepFlag,
        d_shift: Point,
    )
        ensures
            final(self)@ == old(self)@.push(
                PathCommandKind::EllipticalArcRel {
                    radius_x: rx,
                    radius_y: ry,
                    angle,
                    laf: large_arc_flag,
                    sf: sweep_flag,
                    d_shift,
                },
            ),
    {
        self.cmds.push(
            PathCommandKind::EllipticalArcRel {
                radius_x: rx,
                radius_y: ry,
                angle,
                laf: large_arc_flag,
                sf: sweep_flag,
                d_shift,
            },
        );
    }

    /// Append a close command (`Z`).
    pub fn close(&mut self)
        ensures
            final(self)@ == old(self)@.push(PathCommandKind::Close),
    {
        self.cmds.push(PathCommandKind::Close);
    }

    /// Encode the command sequence as the `d` attribute string.
    pub fn to_string(&self) -> (r: String)
        ensures
            r@ == path_text(self@),
    {
        let mut clauses: Vec<String> = Vec::new();
        let n = self.cmds.len();
        let mut i: usize = 0;
        proof {
            assert(clauses@.map_values(|s: String| s@) =~= self.cmds@.take(0).map_values(
                |c: PathCommandKind| clause_text(c),
            ));
        }
        while i < n
            invariant
                n == self.cmds.len(),
                i <= n,
                clauses@.map_values(|s: String| s@) == self.cmds@.take(i as int).map_values(
                    |c: PathCommandKind| clause_text(c),
                ),
            decreases n - i,
        {
            let cmd = &self.cmds[i];
            let mut tokens: Vec<String> = Vec::new();
            tokens.push(to_cmd_str(cmd));
            match cmd {
                PathCommandKind::MoveToAbs(point)
                | PathCommandKind::MoveToRel(point)
                | PathCommandKind::LineAbs(point)
                | PathCommandKind::LineRel(point)
                | PathCommandKind::SmoothQuadraticBezierAbs(point)
                | PathCommandKind::SmoothQuadraticBezierRel(point) => {
                    tokens.push(point.to_string());
                },
                PathCommandKind::HorizontalAbs(coord)
                | PathCommandKind::HorizontalRel(coord)
                | PathCommandKind::VerticalAbs(coord)
                | PathCommandKind::VerticalRel(coord) => {
                    tokens.push(coord.to_string());
                },
                PathCommandKind::CubicBezierAbs { con_start, con_end, to } => {
                    tokens.push(con_start.to_string());
                    tokens.push(con_end.to_string());
                    tokens.push(to.to_string());
                },
                PathCommandKind::CubicBezierRel { d_con_start, d_con_end, d_to } => {
                    tokens.push(d_con_start.to_string());
                    tokens.push(d_con_end.to_string());
                    tokens.push(d_to.to_string());
                },
                PathCommandKind::SmoothCubicBezierAbs { con_end, to } => {
                    tokens.push(con_end.to_string());
                    tokens.push(to.to_string());
                },
                PathCommandKind::SmoothCubicBezierRel { d_con_end, d_to } => {
                    tokens.push(d_con_end.to_string());
                    tokens.push(d_to.to_string());
                },
                PathCommandKind::QuadraticBezierAbs { con, to } => {
                    tokens.push(con.to_string());
                    tokens.push(to.to_string());
                },
                PathCommandKind::QuadraticBezierRel { d_con, d_to } => {
                    tokens.push(d_con.to_string());
                    tokens.push(d_to.to_string());
                },
                PathCommandKind::EllipticalArcAbs {
                    radius_x,
                    radius_y,
                    angle,
                    laf,
                    sf,
                    shift,
                } => {
                    tokens.push(radius_x.to_string());
                    tokens.push(radius_y.to_string());
                    tokens.push(angle.to_string());
                    tokens.push(flag_digit_laf(laf));
                    tokens.push(flag_digit_sf(sf));
                    tokens.push(shift.to_string());
                },
                PathCommandKind::EllipticalArcRel {
                    radius_x,
                    radius_y,
                    angle,
                    laf,
                    sf,
                    d_shift,
                } => {
                    tokens.push(radius_x.to_string());
                    tokens.push(radius_y.to_string());
                    tokens.push(angle.to_string());
                    tokens.push(flag_digit_laf(laf));
                    tokens.push(flag_digit_sf(sf));
                    tokens.push(d_shift.to_string());
                },
                PathCommandKind::Close => {},
            }
            proof {
                assert(tokens@.map_values(|s: String| s@) =~= cmd_tokens(self.cmds@[i as int]));
            }
            let clause = join_with(&tokens, " ");
            let ghost prev = clauses@;
            clauses.push(clause);
            proof {
                assert(clause@ == clause_text(self.cmds@[i as int]));
                assert(clauses@ == prev.push(clause));
                assert(self.cmds@.take(i + 1 as int).drop_last() =~= self.cmds@.take(i as int));
                assert(self.cmds@.take(i + 1 as int).last() == self.cmds@[i as int]);
                assert(clauses@.map_values(|s: String| s@) =~= prev.map_values(
                    |s: String| s@,
                ).push(clause@));
                assert(self.cmds@.take(i + 1 as int).map_values(|c: PathCommandKind| clause_text(c))
                    =~= self.cmds@.take(i as int).map_values(
                    |c: PathCommandKind| clause_text(c),
                ).push(clause_text(self.cmds@[i as int])));
            }
            i += 1;
        }
        proof {
            assert(self.cmds@.take(n as int) =~= self.cmds@);
        }
        join_with(&clauses, " ")
    }
}

/// The digit string a large-arc flag encodes to.
fn flag_digit_laf(f: &LargeArcFlag) -> (r: String)
    ensures
        r@ == laf_text(*f),
{
    match f {
        LargeArcFlag::Small => String::from_str("0"),
        LargeArcFlag::Large => String::from_str("1"),
    }
}

/// The digit string a sweep flag encodes to.
fn flag_digit_sf(f: &SweepFlag) -> (r: String)
    ensures
        r@ == sf_text(*f),
{
    match f {
        SweepFlag::CounterClockwise => String::from_str("0"),
        SweepFlag::Clockwise => String::from_str("1"),
    }
}

} // verus!
