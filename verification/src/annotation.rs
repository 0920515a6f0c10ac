//! Annotations and the values of their elements. An element value may hold
//! an annotation or an array of element values, so the three types refer to
//! one another.
use vstd::prelude::*;

use crate::cursor::views;
use crate::records::{LocalVarTable, TypePathElement};

verus! {

/// The value of one annotation element.
#[derive(Debug, PartialEq, Eq)]
pub enum ElementValue {
    /// A constant of a primitive type or a string; `tag` is one of
    /// `B C D F I J S Z s` and says which.
    ConstValueIndex { tag: u8, const_value_index: u16 },
    EnumConstantValue { type_name_index: u16, const_name_index: u16 },
    ClassInfoIndex(u16),
    AnnotationValue(Annotation),
    ArrayValue { num_values: u16, values: Vec<ElementValue> },
}

/// One annotation: its type and its element-value pairs.
#[derive(Debug, PartialEq, Eq)]
pub struct Annotation {
    pub type_index: u16,
    pub num_element_value_pairs: u16,
    pub element_value_pairs: Vec<AnnotationElementPair>,
}

/// One element of an annotation: its name and its value.
#[derive(Debug, PartialEq, Eq)]
pub struct AnnotationElementPair {
    pub element_name_index: u16,
    pub value: ElementValue,
}

/// The mathematical value of an `ElementValue`.
pub enum ElementValueView {
    ConstValueIndex { tag: u8, const_value_index: u16 },
    EnumConstantValue { type_name_index: u16, const_name_index: u16 },
    ClassInfoIndex(u16),
    AnnotationValue(AnnotationView),
    ArrayValue { num_values: u16, values: Seq<ElementValueView> },
}

/// The mathematical value of an `Annotation`.
pub struct AnnotationView {
    pub type_index: u16,
    pub num_element_value_pairs: u16,
    pub element_value_pairs: Seq<AnnotationElementPairView>,
}

/// The mathematical value of an `AnnotationElementPair`.
pub struct AnnotationElementPairView {
    pub element_name_index: u16,
    pub value: ElementValueView,
}

/// The value of `v`, with the values of what it holds.
pub open spec fn element_value_view(v: ElementValue) -> ElementValueView
    decreases v,
{
    match v {
        ElementValue::ConstValueIndex { tag, const_value_index } => ElementValueView::ConstValueIndex {
            tag,
            const_value_index,
        },
        ElementValue::EnumConstantValue {
            type_name_index,
            const_name_index,
        } => ElementValueView::EnumConstantValue { type_name_index, const_name_index },
        ElementValue::ClassInfoIndex(i) => ElementValueView::ClassInfoIndex(i),
        ElementValue::AnnotationValue(a) => ElementValueView::AnnotationValue(annotation_view(a)),
        ElementValue::ArrayValue { num_values, values } => ElementValueView::ArrayValue {
            num_values,
            values: Seq::new(
                values.len() as nat,
                |i: int|
                    if 0 <= i < values.len() {
                        element_value_view(values[i])
                    } else {
                        arbitrary()
                    },
            ),
        },
    }
}

/// The value of `a`, with the values of its pairs.
pub open spec fn annotation_view(a: Annotation) -> AnnotationView
    decreases a,
{
    AnnotationView {
        type_index: a.type_index,
        num_element_value_pairs: a.num_element_value_pairs,
        element_value_pairs: Seq::new(
            a.element_value_pairs.len() as nat,
            |i: int|
                if 0 <= i < a.element_value_pairs.len() {
                    pair_view(a.element_value_pairs[i])
                } else {
                    arbitrary()
                },
        ),
    }
}

/// The value of `p`, with the value of its element.
pub open spec fn pair_view(p: AnnotationElementPair) -> AnnotationElementPairView
    decreases p,
{
    AnnotationElementPairView {
        element_name_index: p.element_name_index,
        value: element_value_view(p.value),
    }
}

/// Whether every count inside `v` is the length of the table that it
/// counts.
pub open spec fn element_value_counted(v: ElementValueView) -> bool
    decreases v,
{
    match v {
        ElementValueView::AnnotationValue(a) => annotation_counted(a),
        ElementValueView::ArrayValue { num_values, values } => values.len() == num_values && forall|
            i: int,
        |
            0 <= i < values.len() ==> element_value_counted(#[trigger] values[i]),
        _ => true,
    }
}

/// Whether `a` has as many pairs as it says, each with a counted value.
pub open spec fn annotation_counted(a: AnnotationView) -> bool
    decreases a,
{
    a.element_value_pairs.len() == a.num_element_value_pairs && all_pairs_counted(
        a.element_value_pairs,
    )
}

/// Whether every pair has a counted value.
pub open spec fn all_pairs_counted(pairs: Seq<AnnotationElementPairView>) -> bool
    decreases pairs,
{
    forall|i: int| 0 <= i < pairs.len() ==> element_value_counted((#[trigger] pairs[i]).value)
}

/// Whether there are `n` pairs, each with a counted value.
pub open spec fn pairs_counted(pairs: Seq<AnnotationElementPairView>, n: u16) -> bool {
    pairs.len() == n && all_pairs_counted(pairs)
}

/// Whether every element value is counted.
pub open spec fn all_values_counted(values: Seq<ElementValueView>) -> bool {
    forall|i: int| 0 <= i < values.len() ==> element_value_counted(#[trigger] values[i])
}

impl View for ElementValue {
    type V = ElementValueView;

    open spec fn view(&self) -> ElementValueView {
        element_value_view(*self)
    }
}

impl View for Annotation {
    type V = AnnotationView;

    open spec fn view(&self) -> AnnotationView {
        annotation_view(*self)
    }
}

impl View for AnnotationElementPair {
    type V = AnnotationElementPairView;

    open spec fn view(&self) -> AnnotationElementPairView {
        pair_view(*self)
    }
}

/// The annotations of one formal parameter.
#[derive(Debug, PartialEq, Eq)]
pub struct ParameterAnnotations {
    pub num_annotations: u16,
    pub annotations: Vec<Annotation>,
}

/// The mathematical value of a `ParameterAnnotations`.
pub struct ParameterAnnotationsView {
    pub num_annotations: u16,
    pub annotations: Seq<AnnotationView>,
}

impl View for ParameterAnnotations {
    type V = ParameterAnnotationsView;

    open spec fn view(&self) -> ParameterAnnotationsView {
        ParameterAnnotationsView {
            num_annotations: self.num_annotations,
            annotations: views(self.annotations@),
        }
    }
}

/// What a type annotation is on; the shape follows from the target type.
#[derive(Debug, PartialEq, Eq)]
pub enum TargetInfo {
    TypeParameter(u8),
    SuperType(u16),
    TypeParameterBound { type_parameter_index: u8, bound_index: u8 },
    Empty,
    FormalParameter(u8),
    Throws(u16),
    LocalVar { table_length: u16, table: Vec<LocalVarTable> },
    Catch(u16),
    Offset(u16),
    TypeArgument { offset: u16, type_argument_index: u8 },
}

/// The mathematical value of a `TargetInfo`.
pub enum TargetInfoView {
    TypeParameter(u8),
    SuperType(u16),
    TypeParameterBound { type_parameter_index: u8, bound_index: u8 },
    Empty,
    FormalParameter(u8),
    Throws(u16),
    LocalVar { table_length: u16, table: Seq<LocalVarTable> },
    Catch(u16),
    Offset(u16),
    TypeArgument { offset: u16, type_argument_index: u8 },
}

impl View for TargetInfo {
    type V = TargetInfoView;

    open spec fn view(&self) -> TargetInfoView {
        match *self {
            TargetInfo::TypeParameter(i) => TargetInfoView::TypeParameter(i),
            TargetInfo::SuperType(i) => TargetInfoView::SuperType(i),
            TargetInfo::TypeParameterBound {
                type_parameter_index,
                bound_index,
            } => TargetInfoView::TypeParameterBound { type_parameter_index, bound_index },
            TargetInfo::Empty => TargetInfoView::Empty,
            TargetInfo::FormalParameter(i) => TargetInfoView::FormalParameter(i),
            TargetInfo::Throws(i) => TargetInfoView::Throws(i),
            TargetInfo::LocalVar { table_length, table } => TargetInfoView::LocalVar {
                table_length,
                table: views(table@),
            },
            TargetInfo::Catch(i) => TargetInfoView::Catch(i),
            TargetInfo::Offset(o) => TargetInfoView::Offset(o),
            TargetInfo::TypeArgument { offset, type_argument_index } => TargetInfoView::TypeArgument {
                offset,
                type_argument_index,
            },
        }
    }
}

impl TargetInfoView {
    /// Whether the table of a local variable target has the length that
    /// the target says.
    pub open spec fn counted(self) -> bool {
        match self {
            TargetInfoView::LocalVar { table_length, table } => table.len() == table_length,
            _ => true,
        }
    }
}

/// The path from an annotated type to the part that the annotation is on.
#[derive(Debug, PartialEq, Eq)]
pub struct TypePath {
    pub path_length: u8,
    pub path: Vec<TypePathElement>,
}

/// The mathematical value of a `TypePath`.
pub struct TypePathView {
    pub path_length: u8,
    pub path: Seq<TypePathElement>,
}

impl View for TypePath {
    type V = TypePathView;

    open spec fn view(&self) -> TypePathView {
        TypePathView { path_length: self.path_length, path: views(self.path@) }
    }
}

/// An annotation on a use of a type.
#[derive(Debug, PartialEq, Eq)]
pub struct TypeAnnotation {
    pub target_type: u8,
    pub target_info: TargetInfo,
    pub target_path: TypePath,
    pub type_index: u16,
    pub num_element_value_pairs: u16,
    pub element_value_pairs: Vec<AnnotationElementPair>,
}

/// The mathematical value of a `TypeAnnotation`.
pub struct TypeAnnotationView {
    pub target_type: u8,
    pub target_info: TargetInfoView,
    pub target_path: TypePathView,
    pub type_index: u16,
    pub num_element_value_pairs: u16,
    pub element_value_pairs: Seq<AnnotationElementPairView>,
}

impl View for TypeAnnotation {
    type V = TypeAnnotationView;

    open spec fn view(&self) -> TypeAnnotationView {
        TypeAnnotationView {
            target_type: self.target_type,
            target_info: self.target_info@,
            target_path: self.target_path@,
            type_index: self.type_index,
            num_element_value_pairs: self.num_element_value_pairs,
            element_value_pairs: views(self.element_value_pairs@),
        }
    }
}

} // verus!
