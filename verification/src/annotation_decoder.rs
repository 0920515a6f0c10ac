//! Decoding annotations, element values and type annotations.
use vstd::prelude::*;

use crate::annotation::{
    all_pairs_counted, all_values_counted, annotation_counted, element_value_counted, pairs_counted,
    Annotation, AnnotationElementPair, AnnotationElementPairView, AnnotationView, ElementValue,
    ElementValueView, ParameterAnnotations, ParameterAnnotationsView, TargetInfo, TargetInfoView,
    TypeAnnotation, TypeAnnotationView, TypePath, TypePathView,
};
use crate::cursor::{be16, eof, fits, spec_u16, spec_u8, views, Cursor, Decoded};
use crate::error::DecompileError;
use crate::records::{LocalVarTable, TypePathElement};
use crate::table::{all_counted, lemma_many_forward, lemma_many_len, read_table, spec_table, Decode};

verus! {

/// The element value tags that announce a constant: `B C D F I J S Z s`.
pub open spec fn is_const_tag(tag: u8) -> bool {
    tag == 66 || tag == 67 || tag == 68 || tag == 70 || tag == 73 || tag == 74 || tag == 83 || tag
        == 90 || tag == 115
}

/// The element value at `pos`: a tag byte, then what the tag announces.
/// `e` is an enum constant, `c` a class, `@` an annotation, `[` an array.
pub open spec fn spec_element_value(b: Seq<u8>, pos: int, end: int) -> Decoded<ElementValueView>
    decreases end - pos, 0int, 0nat,
{
    match spec_u8(b, pos, end) {
        Err(e) => Err(e),
        Ok((tag, p)) => if is_const_tag(tag) {
            match spec_u16(b, p, end) {
                Err(e) => Err(e),
                Ok((const_value_index, q)) => Ok(
                    (ElementValueView::ConstValueIndex { tag, const_value_index }, q),
                ),
            }
        } else if tag == 101 {
            if fits(p, end, 4) {
                Ok(
                    (
                        ElementValueView::EnumConstantValue {
                            type_name_index: be16(b, p),
                            const_name_index: be16(b, p + 2),
                        },
                        p + 4,
                    ),
                )
            } else {
                Err(eof(p))
            }
        } else if tag == 99 {
            match spec_u16(b, p, end) {
                Err(e) => Err(e),
                Ok((class_info_index, q)) => Ok((ElementValueView::ClassInfoIndex(class_info_index), q)),
            }
        } else if tag == 64 {
            match spec_annotation(b, p, end) {
                Err(e) => Err(e),
                Ok((a, q)) => Ok((ElementValueView::AnnotationValue(a), q)),
            }
        } else if tag == 91 {
            match spec_u16(b, p, end) {
                Err(e) => Err(e),
                Ok((num_values, q)) => match spec_element_values(b, q, end, num_values as nat, Seq::empty()) {
                    Err(e) => Err(e),
                    Ok((values, r)) => Ok((ElementValueView::ArrayValue { num_values, values }, r)),
                },
            }
        } else {
            Err(DecompileError::InvalidAttributeTag(tag, pos as u64))
        },
    }
}

/// `n` element values one after another from `pos`, appended to `acc`.
/// Every element value takes at least its tag byte, so the offset always
/// moves forward.
pub open spec fn spec_element_values(
    b: Seq<u8>,
    pos: int,
    end: int,
    n: nat,
    acc: Seq<ElementValueView>,
) -> Decoded<Seq<ElementValueView>>
    decreases end - pos, 1int, n,
{
    if n == 0 {
        Ok((acc, pos))
    } else {
        match spec_element_value(b, pos, end) {
            Err(e) => Err(e),
            Ok((v, p)) => if pos < p <= end {
                spec_element_values(b, p, end, (n - 1) as nat, acc.push(v))
            } else {
                Err(eof(pos))
            },
        }
    }
}

/// The annotation at `pos`: a type index, a pair count, and the pairs.
pub open spec fn spec_annotation(b: Seq<u8>, pos: int, end: int) -> Decoded<AnnotationView>
    decreases end - pos, 0int, 0nat,
{
    if !fits(pos, end, 4) {
        Err(eof(pos))
    } else {
        match spec_pairs(b, pos + 4, end, be16(b, pos + 2) as nat, Seq::empty()) {
            Err(e) => Err(e),
            Ok((pairs, p)) => Ok(
                (
                    AnnotationView {
                        type_index: be16(b, pos),
                        num_element_value_pairs: be16(b, pos + 2),
                        element_value_pairs: pairs,
                    },
                    p,
                ),
            ),
        }
    }
}

/// `n` element-value pairs one after another from `pos`, appended to
/// `acc`: each is a name index and an element value.
pub open spec fn spec_pairs(
    b: Seq<u8>,
    pos: int,
    end: int,
    n: nat,
    acc: Seq<AnnotationElementPairView>,
) -> Decoded<Seq<AnnotationElementPairView>>
    decreases end - pos, 1int, n,
{
    if n == 0 {
        Ok((acc, pos))
    } else {
        match spec_u16(b, pos, end) {
            Err(e) => Err(e),
            Ok((element_name_index, p)) => match spec_element_value(b, p, end) {
                Err(e) => Err(e),
                Ok((value, q)) => if pos < q <= end {
                    spec_pairs(
                        b,
                        q,
                        end,
                        (n - 1) as nat,
                        acc.push(AnnotationElementPairView { element_name_index, value }),
                    )
                } else {
                    Err(eof(pos))
                },
            },
        }
    }
}

/// An element value that decodes ends inside the window, after the offset
/// at which it began.
pub proof fn lemma_element_value_forward(b: Seq<u8>, pos: int, end: int)
    requires
        pos <= end,
    ensures
        spec_element_value(b, pos, end) matches Ok((v, p)) ==> pos < p <= end,
    decreases end - pos, 0int, 0nat,
{
    if pos < end {
        let tag = b[pos];
        if tag == 64 {
            lemma_annotation_forward(b, pos + 1, end);
        } else if tag == 91 && fits(pos + 1, end, 2) {
            lemma_element_values_forward(b, pos + 3, end, be16(b, pos + 1) as nat, Seq::empty());
        }
    }
}

/// A run of element values that decodes ends inside the window, at or
/// after the offset at which it began.
pub proof fn lemma_element_values_forward(
    b: Seq<u8>,
    pos: int,
    end: int,
    n: nat,
    acc: Seq<ElementValueView>,
)
    requires
        pos <= end,
    ensures
        spec_element_values(b, pos, end, n, acc) matches Ok((v, p)) ==> pos <= p <= end,
    decreases end - pos, 1int, n,
{
    if n > 0 {
        lemma_element_value_forward(b, pos, end);
        match spec_element_value(b, pos, end) {
            Ok((v, p)) => {
                if pos < p <= end {
                    lemma_element_values_forward(b, p, end, (n - 1) as nat, acc.push(v));
                }
            },
            Err(e) => {},
        }
    }
}

/// An annotation that decodes ends inside the window, after the offset at
/// which it began.
pub proof fn lemma_annotation_forward(b: Seq<u8>, pos: int, end: int)
    requires
        pos <= end,
    ensures
        spec_annotation(b, pos, end) matches Ok((a, p)) ==> pos < p <= end,
    decreases end - pos, 0int, 0nat,
{
    if fits(pos, end, 4) {
        lemma_pairs_forward(b, pos + 4, end, be16(b, pos + 2) as nat, Seq::empty());
    }
}

/// A run of element-value pairs that decodes ends inside the window, at or
/// after the offset at which it began.
pub proof fn lemma_pairs_forward(
    b: Seq<u8>,
    pos: int,
    end: int,
    n: nat,
    acc: Seq<AnnotationElementPairView>,
)
    requires
        pos <= end,
    ensures
        spec_pairs(b, pos, end, n, acc) matches Ok((v, p)) ==> pos <= p <= end,
    decreases end - pos, 1int, n,
{
    if n > 0 && fits(pos, end, 2) {
        lemma_element_value_forward(b, pos + 2, end);
        match spec_element_value(b, pos + 2, end) {
            Ok((value, q)) => {
                if pos < q <= end {
                    lemma_pairs_forward(
                        b,
                        q,
                        end,
                        (n - 1) as nat,
                        acc.push(
                            AnnotationElementPairView { element_name_index: be16(b, pos), value },
                        ),
                    );
                }
            },
            Err(e) => {},
        }
    }
}

/// An element value that decodes has counts that are the lengths of its
/// tables.
pub proof fn lemma_element_value_counted(b: Seq<u8>, pos: int, end: int)
    requires
        pos <= end,
    ensures
        spec_element_value(b, pos, end) matches Ok((v, p)) ==> element_value_counted(v),
    decreases end - pos, 0int, 0nat,
{
    if pos < end {
        let tag = b[pos];
        if tag == 64 {
            lemma_annotation_counted(b, pos + 1, end);
        } else if tag == 91 && fits(pos + 1, end, 2) {
            lemma_element_values_counted(b, pos + 3, end, be16(b, pos + 1) as nat, Seq::empty());
        }
    }
}

/// A run of `n` element values that decodes adds `n` values to `acc`, each
/// with counts that are the lengths of its tables.
pub proof fn lemma_element_values_counted(
    b: Seq<u8>,
    pos: int,
    end: int,
    n: nat,
    acc: Seq<ElementValueView>,
)
    requires
        pos <= end,
        all_values_counted(acc),
    ensures
        spec_element_values(b, pos, end, n, acc) matches Ok((v, p)) ==> v.len() == acc.len() + n
            && all_values_counted(v),
    decreases end - pos, 1int, n,
{
    if n > 0 {
        lemma_element_value_counted(b, pos, end);
        match spec_element_value(b, pos, end) {
            Ok((v, p)) => {
                if pos < p <= end {
                    assert forall|i: int| 0 <= i < acc.push(v).len() implies element_value_counted(
                        #[trigger] acc.push(v)[i],
                    ) by {
                        if i < acc.len() {
                            assert(element_value_counted(acc[i]));
                        }
                    }
                    lemma_element_values_counted(b, p, end, (n - 1) as nat, acc.push(v));
                }
            },
            Err(e) => {},
        }
    }
}

/// An annotation that decodes has as many pairs as it says, each with a
/// counted value.
pub proof fn lemma_annotation_counted(b: Seq<u8>, pos: int, end: int)
    requires
        pos <= end,
    ensures
        spec_annotation(b, pos, end) matches Ok((a, p)) ==> annotation_counted(a),
    decreases end - pos, 0int, 0nat,
{
    if fits(pos, end, 4) {
        lemma_pairs_counted(b, pos + 4, end, be16(b, pos + 2) as nat, Seq::empty());
    }
}

/// A run of `n` pairs that decodes adds `n` pairs to `acc`, each with a
/// counted value.
pub proof fn lemma_pairs_counted(
    b: Seq<u8>,
    pos: int,
    end: int,
    n: nat,
    acc: Seq<AnnotationElementPairView>,
)
    requires
        pos <= end,
        all_pairs_counted(acc),
    ensures
        spec_pairs(b, pos, end, n, acc) matches Ok((v, p)) ==> v.len() == acc.len() + n
            && all_pairs_counted(v),
    decreases end - pos, 1int, n,
{
    if n > 0 && fits(pos, end, 2) {
        lemma_element_value_counted(b, pos + 2, end);
        match spec_element_value(b, pos + 2, end) {
            Ok((value, q)) => {
                if pos < q <= end {
                    let pair = AnnotationElementPairView { element_name_index: be16(b, pos), value };
                    assert forall|i: int| 0 <= i < acc.push(pair).len() implies element_value_counted(
                        (#[trigger] acc.push(pair)[i]).value,
                    ) by {
                        if i < acc.len() {
                            assert(element_value_counted(acc[i].value));
                        }
                    }
                    lemma_pairs_counted(b, q, end, (n - 1) as nat, acc.push(pair));
                }
            },
            Err(e) => {},
        }
    }
}

/// Whether a tag announces a constant.
fn const_tag(tag: u8) -> (r: bool)
    ensures
        r == is_const_tag(tag),
{
    tag == 66 || tag == 67 || tag == 68 || tag == 70 || tag == 73 || tag == 74 || tag == 83 || tag
        == 90 || tag == 115
}

/// Decodes one element value.
pub fn read_element_value(cur: &mut Cursor) -> (r: Result<ElementValue, DecompileError>)
    requires
        old(cur).inv(),
    ensures
        final(cur).decoded(
            *old(cur),
            r,
            spec_element_value(old(cur).bytes@, old(cur).pos as int, old(cur).end as int),
        ),
        r is Ok ==> old(cur).pos < final(cur).pos,
    decreases old(cur).end - old(cur).pos, 0int, 0nat,
{
    let at = cur.position();
    let tag = cur.read_u8()?;
    if const_tag(tag) {
        let const_value_index = cur.read_u16()?;
        Ok(ElementValue::ConstValueIndex { tag, const_value_index })
    } else if tag == 101 {
        cur.need(4)?;
        let type_name_index = cur.take_u16();
        let const_name_index = cur.take_u16();
        Ok(ElementValue::EnumConstantValue { type_name_index, const_name_index })
    } else if tag == 99 {
        let class_info_index = cur.read_u16()?;
        Ok(ElementValue::ClassInfoIndex(class_info_index))
    } else if tag == 64 {
        let a = read_annotation(cur)?;
        Ok(ElementValue::AnnotationValue(a))
    } else if tag == 91 {
        let num_values = cur.read_u16()?;
        let values = read_element_values(cur, num_values as usize)?;
        let v = ElementValue::ArrayValue { num_values, values };
        assert(v@->ArrayValue_values =~= views(values@));
        Ok(v)
    } else {
        Err(DecompileError::InvalidAttributeTag(tag, at))
    }
}

/// Decodes `n` element values.
pub fn read_element_values(cur: &mut Cursor, n: usize) -> (r: Result<Vec<ElementValue>, DecompileError>)
    requires
        old(cur).inv(),
    ensures
        final(cur).decoded_list(
            *old(cur),
            r,
            spec_element_values(
                old(cur).bytes@,
                old(cur).pos as int,
                old(cur).end as int,
                n as nat,
                Seq::empty(),
            ),
        ),
        r is Ok ==> old(cur).pos <= final(cur).pos,
    decreases old(cur).end - old(cur).pos, 1int, n,
{
    let mut out: Vec<ElementValue> = Vec::new();
    let mut i: usize = 0;
    assert(views(out@) =~= Seq::<ElementValueView>::empty());
    while i < n
        invariant
            i <= n,
            cur.same_window(*old(cur)),
            old(cur).pos <= cur.pos,
            spec_element_values(
                old(cur).bytes@,
                old(cur).pos as int,
                old(cur).end as int,
                n as nat,
                Seq::empty(),
            ) == spec_element_values(cur.bytes@, cur.pos as int, cur.end as int, (n - i) as nat, views(out@)),
        decreases n - i,
    {
        let ghost before = views(out@);
        let v = read_element_value(cur)?;
        out.push(v);
        assert(views(out@) =~= before.push(v@));
        i = i + 1;
    }
    Ok(out)
}

/// Decodes one annotation.
pub fn read_annotation(cur: &mut Cursor) -> (r: Result<Annotation, DecompileError>)
    requires
        old(cur).inv(),
    ensures
        final(cur).decoded(
            *old(cur),
            r,
            spec_annotation(old(cur).bytes@, old(cur).pos as int, old(cur).end as int),
        ),
        r is Ok ==> old(cur).pos < final(cur).pos,
    decreases old(cur).end - old(cur).pos, 0int, 0nat,
{
    cur.need(4)?;
    let type_index = cur.take_u16();
    let num_element_value_pairs = cur.take_u16();
    let element_value_pairs = read_pairs(cur, num_element_value_pairs as usize)?;
    let a = Annotation { type_index, num_element_value_pairs, element_value_pairs };
    assert(a@.element_value_pairs =~= views(element_value_pairs@));
    Ok(a)
}

/// Decodes `n` element-value pairs.
pub fn read_pairs(cur: &mut Cursor, n: usize) -> (r: Result<Vec<AnnotationElementPair>, DecompileError>)
    requires
        old(cur).inv(),
    ensures
        final(cur).decoded_list(
            *old(cur),
            r,
            spec_pairs(old(cur).bytes@, old(cur).pos as int, old(cur).end as int, n as nat, Seq::empty()),
        ),
        r is Ok ==> old(cur).pos <= final(cur).pos,
    decreases old(cur).end - old(cur).pos, 1int, n,
{
    let mut out: Vec<AnnotationElementPair> = Vec::new();
    let mut i: usize = 0;
    assert(views(out@) =~= Seq::<AnnotationElementPairView>::empty());
    while i < n
        invariant
            i <= n,
            cur.same_window(*old(cur)),
            old(cur).pos <= cur.pos,
            spec_pairs(old(cur).bytes@, old(cur).pos as int, old(cur).end as int, n as nat, Seq::empty())
                == spec_pairs(cur.bytes@, cur.pos as int, cur.end as int, (n - i) as nat, views(out@)),
        decreases n - i,
    {
        let ghost before = views(out@);
        let element_name_index = cur.read_u16()?;
        let value = read_element_value(cur)?;
        let pair = AnnotationElementPair { element_name_index, value };
        out.push(pair);
        assert(views(out@) =~= before.push(pair@));
        i = i + 1;
    }
    Ok(out)
}

impl Decode for ElementValue {
    open spec fn spec_decode(b: Seq<u8>, pos: int, end: int) -> Decoded<ElementValueView> {
        spec_element_value(b, pos, end)
    }

    proof fn lemma_forward(b: Seq<u8>, pos: int, end: int) {
        lemma_element_value_forward(b, pos, end);
    }

    open spec fn counted(v: ElementValueView) -> bool {
        element_value_counted(v)
    }

    proof fn lemma_counted(b: Seq<u8>, pos: int, end: int) {
        if pos <= end {
            lemma_element_value_counted(b, pos, end);
        }
    }

    fn decode(cur: &mut Cursor) -> (r: Result<ElementValue, DecompileError>) {
        read_element_value(cur)
    }
}

impl Decode for Annotation {
    open spec fn spec_decode(b: Seq<u8>, pos: int, end: int) -> Decoded<AnnotationView> {
        spec_annotation(b, pos, end)
    }

    proof fn lemma_forward(b: Seq<u8>, pos: int, end: int) {
        lemma_annotation_forward(b, pos, end);
    }

    open spec fn counted(v: AnnotationView) -> bool {
        annotation_counted(v)
    }

    proof fn lemma_counted(b: Seq<u8>, pos: int, end: int) {
        if pos <= end {
            lemma_annotation_counted(b, pos, end);
        }
    }

    fn decode(cur: &mut Cursor) -> (r: Result<Annotation, DecompileError>) {
        read_annotation(cur)
    }
}

impl Decode for ParameterAnnotations {
    open spec fn spec_decode(b: Seq<u8>, pos: int, end: int) -> Decoded<ParameterAnnotationsView> {
        match spec_u16(b, pos, end) {
            Err(e) => Err(e),
            Ok((num_annotations, p)) => match spec_table::<Annotation>(b, p, end, num_annotations as nat) {
                Err(e) => Err(e),
                Ok((annotations, q)) => Ok((ParameterAnnotationsView { num_annotations, annotations }, q)),
            },
        }
    }

    proof fn lemma_forward(b: Seq<u8>, pos: int, end: int) {
        if fits(pos, end, 2) {
            lemma_many_forward::<Annotation>(b, pos + 2, end, be16(b, pos) as nat, Seq::empty());
        }
    }

    open spec fn counted(v: ParameterAnnotationsView) -> bool {
        v.annotations.len() == v.num_annotations && all_counted::<Annotation>(v.annotations)
    }

    proof fn lemma_counted(b: Seq<u8>, pos: int, end: int) {
        if fits(pos, end, 2) {
            lemma_many_len::<Annotation>(b, pos + 2, end, be16(b, pos) as nat, Seq::empty());
        }
    }

    fn decode(cur: &mut Cursor) -> (r: Result<ParameterAnnotations, DecompileError>) {
        let num_annotations = cur.read_u16()?;
        let annotations = read_table::<Annotation>(cur, num_annotations as usize)?;
        Ok(ParameterAnnotations { num_annotations, annotations })
    }
}

/// The target of a type annotation whose target type byte `t` stood at
/// `type_at`; the shape at `pos` follows from `t`. A byte that names no
/// target is `InvalidAttributeTag`.
pub open spec fn spec_target_info(b: Seq<u8>, pos: int, end: int, t: u8, type_at: int) -> Decoded<
    TargetInfoView,
> {
    if t == 0x00 || t == 0x01 {
        match spec_u8(b, pos, end) {
            Err(e) => Err(e),
            Ok((i, p)) => Ok((TargetInfoView::TypeParameter(i), p)),
        }
    } else if t == 0x10 {
        match spec_u16(b, pos, end) {
            Err(e) => Err(e),
            Ok((i, p)) => Ok((TargetInfoView::SuperType(i), p)),
        }
    } else if t == 0x11 || t == 0x12 {
        if fits(pos, end, 2) {
            Ok(
                (
                    TargetInfoView::TypeParameterBound {
                        type_parameter_index: b[pos],
                        bound_index: b[pos + 1],
                    },
                    pos + 2,
                ),
            )
        } else {
            Err(eof(pos))
        }
    } else if 0x13 <= t <= 0x15 {
        Ok((TargetInfoView::Empty, pos))
    } else if t == 0x16 {
        match spec_u8(b, pos, end) {
            Err(e) => Err(e),
            Ok((i, p)) => Ok((TargetInfoView::FormalParameter(i), p)),
        }
    } else if t == 0x17 {
        match spec_u16(b, pos, end) {
            Err(e) => Err(e),
            Ok((i, p)) => Ok((TargetInfoView::Throws(i), p)),
        }
    } else if t == 0x40 || t == 0x41 {
        match spec_u16(b, pos, end) {
            Err(e) => Err(e),
            Ok((table_length, p)) => match spec_table::<LocalVarTable>(b, p, end, table_length as nat) {
                Err(e) => Err(e),
                Ok((table, q)) => Ok((TargetInfoView::LocalVar { table_length, table }, q)),
            },
        }
    } else if t == 0x42 {
        match spec_u16(b, pos, end) {
            Err(e) => Err(e),
            Ok((i, p)) => Ok((TargetInfoView::Catch(i), p)),
        }
    } else if 0x43 <= t <= 0x46 {
        match spec_u16(b, pos, end) {
            Err(e) => Err(e),
            Ok((o, p)) => Ok((TargetInfoView::Offset(o), p)),
        }
    } else if 0x47 <= t <= 0x4B {
        if fits(pos, end, 3) {
            Ok(
                (
                    TargetInfoView::TypeArgument {
                        offset: be16(b, pos),
                        type_argument_index: b[pos + 2],
                    },
                    pos + 3,
                ),
            )
        } else {
            Err(eof(pos))
        }
    } else {
        Err(DecompileError::InvalidAttributeTag(t, type_at as u64))
    }
}

/// The target of a type annotation that decodes ends inside the window,
/// at or after the offset at which it began.
pub proof fn lemma_target_info_forward(b: Seq<u8>, pos: int, end: int, t: u8, type_at: int)
    requires
        pos <= end,
    ensures
        spec_target_info(b, pos, end, t, type_at) matches Ok((v, p)) ==> pos <= p <= end,
{
    if fits(pos, end, 2) {
        lemma_many_forward::<LocalVarTable>(b, pos + 2, end, be16(b, pos) as nat, Seq::empty());
    }
}

/// Decodes the target of a type annotation of target type `t`, whose byte
/// stood at `type_at`.
pub fn read_target_info(cur: &mut Cursor, t: u8, type_at: u64) -> (r: Result<TargetInfo, DecompileError>)
    requires
        old(cur).inv(),
    ensures
        final(cur).decoded(
            *old(cur),
            r,
            spec_target_info(
                old(cur).bytes@,
                old(cur).pos as int,
                old(cur).end as int,
                t,
                type_at as int,
            ),
        ),
        r is Ok ==> old(cur).pos <= final(cur).pos,
{
    if t == 0x00 || t == 0x01 {
        let i = cur.read_u8()?;
        Ok(TargetInfo::TypeParameter(i))
    } else if t == 0x10 {
        let i = cur.read_u16()?;
        Ok(TargetInfo::SuperType(i))
    } else if t == 0x11 || t == 0x12 {
        cur.need(2)?;
        let type_parameter_index = cur.take_u8();
        let bound_index = cur.take_u8();
        Ok(TargetInfo::TypeParameterBound { type_parameter_index, bound_index })
    } else if 0x13 <= t && t <= 0x15 {
        Ok(TargetInfo::Empty)
    } else if t == 0x16 {
        let i = cur.read_u8()?;
        Ok(TargetInfo::FormalParameter(i))
    } else if t == 0x17 {
        let i = cur.read_u16()?;
        Ok(TargetInfo::Throws(i))
    } else if t == 0x40 || t == 0x41 {
        let table_length = cur.read_u16()?;
        let table = read_table::<LocalVarTable>(cur, table_length as usize)?;
        Ok(TargetInfo::LocalVar { table_length, table })
    } else if t == 0x42 {
        let i = cur.read_u16()?;
        Ok(TargetInfo::Catch(i))
    } else if 0x43 <= t && t <= 0x46 {
        let o = cur.read_u16()?;
        Ok(TargetInfo::Offset(o))
    } else if 0x47 <= t && t <= 0x4B {
        cur.need(3)?;
        let offset = cur.take_u16();
        let type_argument_index = cur.take_u8();
        Ok(TargetInfo::TypeArgument { offset, type_argument_index })
    } else {
        Err(DecompileError::InvalidAttributeTag(t, type_at))
    }
}

impl Decode for TypePath {
    open spec fn spec_decode(b: Seq<u8>, pos: int, end: int) -> Decoded<TypePathView> {
        match spec_u8(b, pos, end) {
            Err(e) => Err(e),
            Ok((path_length, p)) => match spec_table::<TypePathElement>(b, p, end, path_length as nat) {
                Err(e) => Err(e),
                Ok((path, q)) => Ok((TypePathView { path_length, path }, q)),
            },
        }
    }

    proof fn lemma_forward(b: Seq<u8>, pos: int, end: int) {
        if fits(pos, end, 1) {
            lemma_many_forward::<TypePathElement>(b, pos + 1, end, b[pos] as nat, Seq::empty());
        }
    }

    open spec fn counted(v: TypePathView) -> bool {
        v.path.len() == v.path_length
    }

    proof fn lemma_counted(b: Seq<u8>, pos: int, end: int) {
        if fits(pos, end, 1) {
            lemma_many_len::<TypePathElement>(b, pos + 1, end, b[pos] as nat, Seq::empty());
        }
    }

    fn decode(cur: &mut Cursor) -> (r: Result<TypePath, DecompileError>) {
        let path_length = cur.read_u8()?;
        let path = read_table::<TypePathElement>(cur, path_length as usize)?;
        Ok(TypePath { path_length, path })
    }
}

impl Decode for TypeAnnotation {
    open spec fn spec_decode(b: Seq<u8>, pos: int, end: int) -> Decoded<TypeAnnotationView> {
        match spec_u8(b, pos, end) {
            Err(e) => Err(e),
            Ok((target_type, p1)) => match spec_target_info(b, p1, end, target_type, pos) {
                Err(e) => Err(e),
                Ok((target_info, p2)) => match TypePath::spec_decode(b, p2, end) {
                    Err(e) => Err(e),
                    Ok((target_path, p3)) => if !fits(p3, end, 4) {
                        Err(eof(p3))
                    } else {
                        match spec_pairs(b, p3 + 4, end, be16(b, p3 + 2) as nat, Seq::empty()) {
                            Err(e) => Err(e),
                            Ok((element_value_pairs, p4)) => Ok(
                                (
                                    TypeAnnotationView {
                                        target_type,
                                        target_info,
                                        target_path,
                                        type_index: be16(b, p3),
                                        num_element_value_pairs: be16(b, p3 + 2),
                                        element_value_pairs,
                                    },
                                    p4,
                                ),
                            ),
                        }
                    },
                },
            },
        }
    }

    proof fn lemma_forward(b: Seq<u8>, pos: int, end: int) {
        if fits(pos, end, 1) {
            lemma_target_info_forward(b, pos + 1, end, b[pos], pos);
            match spec_target_info(b, pos + 1, end, b[pos], pos) {
                Ok((target_info, p2)) => {
                    TypePath::lemma_forward(b, p2, end);
                    match TypePath::spec_decode(b, p2, end) {
                        Ok((target_path, p3)) => {
                            if fits(p3, end, 4) {
                                lemma_pairs_forward(b, p3 + 4, end, be16(b, p3 + 2) as nat, Seq::empty());
                            }
                        },
                        Err(e) => {},
                    }
                },
                Err(e) => {},
            }
        }
    }

    open spec fn counted(v: TypeAnnotationView) -> bool {
        &&& v.target_info.counted()
        &&& TypePath::counted(v.target_path)
        &&& pairs_counted(v.element_value_pairs, v.num_element_value_pairs)
    }

    proof fn lemma_counted(b: Seq<u8>, pos: int, end: int) {
        if fits(pos, end, 1) {
            if fits(pos + 1, end, 2) {
                lemma_many_len::<LocalVarTable>(b, pos + 3, end, be16(b, pos + 1) as nat, Seq::empty());
            }
            if pos + 1 <= end {
                lemma_target_info_forward(b, pos + 1, end, b[pos], pos);
            }
            match spec_target_info(b, pos + 1, end, b[pos], pos) {
                Ok((target_info, p2)) => {
                    TypePath::lemma_counted(b, p2, end);
                    TypePath::lemma_forward(b, p2, end);
                    match TypePath::spec_decode(b, p2, end) {
                        Ok((target_path, p3)) => {
                            if fits(p3, end, 4) {
                                lemma_pairs_counted(b, p3 + 4, end, be16(b, p3 + 2) as nat, Seq::empty());
                            }
                        },
                        Err(e) => {},
                    }
                },
                Err(e) => {},
            }
        }
    }

    fn decode(cur: &mut Cursor) -> (r: Result<TypeAnnotation, DecompileError>) {
        let type_at = cur.position();
        let target_type = cur.read_u8()?;
        let target_info = read_target_info(cur, target_type, type_at)?;
        let target_path = TypePath::decode(cur)?;
        cur.need(4)?;
        let type_index = cur.take_u16();
        let num_element_value_pairs = cur.take_u16();
        let element_value_pairs = read_pairs(cur, num_element_value_pairs as usize)?;
        Ok(
            TypeAnnotation {
                target_type,
                target_info,
                target_path,
                type_index,
                num_element_value_pairs,
                element_value_pairs,
            },
        )
    }
}

} // verus!
