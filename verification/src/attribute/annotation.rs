//! Java annotation types for class file attributes.
//!
//! https://docs.oracle.com/javase/specs/jvms/se25/html/jvms-4.html#jvms-4.7.16

use crate::constant_pool::entry::{read_matches, ru16, ru8};
use crate::cursor::{ByteCursor, be_u16, avail};
use crate::error::{ClassFormatErr, ReadError, SpecClassFormatErr, SpecRead, SpecReadError, spec_eof};
use crate::read::prepend;
use vstd::prelude::*;

verus! {

/// A runtime annotation on a class, field, method, or record component.
///
/// https://docs.oracle.com/javase/specs/jvms/se25/html/jvms-4.html#jvms-4.7.16
#[derive(Debug, PartialEq, Eq)]
pub struct Annotation {
    pub type_index: u16,
    pub element_value_pairs: Vec<ElementValuePair>,
}

/// A name-value pair in an annotation.
#[derive(Debug, PartialEq, Eq)]
pub struct ElementValuePair {
    pub element_name_index: u16,
    pub value: ElementValue,
}

/// Tag identifying the type of an element value in an annotation.
///
/// https://docs.oracle.com/javase/specs/jvms/se25/html/jvms-4.html#jvms-4.7.16.1
#[derive(Debug, Clone, Copy, PartialEq, Eq, Structural)]
pub enum ElementKind {
    Byte,
    Char,
    Double,
    Float,
    Int,
    Long,
    Short,
    Boolean,
    String,
    EnumClass,
    Class,
    AnnotationInterface,
    ArrayType,
}

/// The byte that encodes each [`ElementKind`].
pub open spec fn spec_element_kind_tag(k: ElementKind) -> u8 {
    match k {
        ElementKind::Byte => 66,
        ElementKind::Char => 67,
        ElementKind::Double => 68,
        ElementKind::Float => 70,
        ElementKind::Int => 73,
        ElementKind::Long => 74,
        ElementKind::Short => 83,
        ElementKind::Boolean => 90,
        ElementKind::String => 115,
        ElementKind::EnumClass => 101,
        ElementKind::Class => 99,
        ElementKind::AnnotationInterface => 64,
        ElementKind::ArrayType => 91,
    }
}

/// The [`ElementKind`] that a byte encodes, if any.
pub open spec fn spec_element_kind_from_tag(b: u8) -> Option<ElementKind> {
    match b {
        66 => Some(ElementKind::Byte),
        67 => Some(ElementKind::Char),
        68 => Some(ElementKind::Double),
        70 => Some(ElementKind::Float),
        73 => Some(ElementKind::Int),
        74 => Some(ElementKind::Long),
        83 => Some(ElementKind::Short),
        90 => Some(ElementKind::Boolean),
        115 => Some(ElementKind::String),
        101 => Some(ElementKind::EnumClass),
        99 => Some(ElementKind::Class),
        64 => Some(ElementKind::AnnotationInterface),
        91 => Some(ElementKind::ArrayType),
        _ => None,
    }
}

impl ElementKind {
    /// The byte that encodes this value.
    pub fn tag(&self) -> (b: u8)
        ensures
            b == spec_element_kind_tag(*self),
    {
        match self {
            ElementKind::Byte => 66,
            ElementKind::Char => 67,
            ElementKind::Double => 68,
            ElementKind::Float => 70,
            ElementKind::Int => 73,
            ElementKind::Long => 74,
            ElementKind::Short => 83,
            ElementKind::Boolean => 90,
            ElementKind::String => 115,
            ElementKind::EnumClass => 101,
            ElementKind::Class => 99,
            ElementKind::AnnotationInterface => 64,
            ElementKind::ArrayType => 91,
        }
    }

    /// The value that `b` encodes, or `None` for a byte that encodes none.
    pub fn from_tag(b: u8) -> (k: Option<ElementKind>)
        ensures
            k == spec_element_kind_from_tag(b),
    {
        match b {
            66 => Some(ElementKind::Byte),
            67 => Some(ElementKind::Char),
            68 => Some(ElementKind::Double),
            70 => Some(ElementKind::Float),
            73 => Some(ElementKind::Int),
            74 => Some(ElementKind::Long),
            83 => Some(ElementKind::Short),
            90 => Some(ElementKind::Boolean),
            115 => Some(ElementKind::String),
            101 => Some(ElementKind::EnumClass),
            99 => Some(ElementKind::Class),
            64 => Some(ElementKind::AnnotationInterface),
            91 => Some(ElementKind::ArrayType),
            _ => None,
        }
    }
}

/// Encoding a [`ElementKind`] as its byte and decoding the byte gives it back,
/// and every byte that decodes to a value is that value's encoding.
pub proof fn lemma_element_kind_tag_roundtrip(k: ElementKind, b: u8)
    ensures
        spec_element_kind_from_tag(spec_element_kind_tag(k)) == Some(k),
        spec_element_kind_from_tag(b) == Some(k) ==> spec_element_kind_tag(k) == b,
{
}

/// The value of an element in an annotation.
///
/// https://docs.oracle.com/javase/specs/jvms/se25/html/jvms-4.html#jvms-4.7.16.1
#[derive(Debug, PartialEq, Eq)]
pub enum ElementValue {
    Byte(u16),
    Char(u16),
    Double(u16),
    Float(u16),
    Int(u16),
    Long(u16),
    Short(u16),
    Boolean(u16),
    String(u16),
    EnumConstValue { type_name_index: u16, const_name_index: u16 },
    Class(u16),
    AnnotationValue(Annotation),
    Array(Vec<ElementValue>),
}

/// Mathematical counterpart of [`Annotation`].
pub struct SpecAnnotation {
    pub type_index: u16,
    pub element_value_pairs: Seq<SpecElementValuePair>,
}

/// Mathematical counterpart of [`ElementValuePair`].
pub struct SpecElementValuePair {
    pub element_name_index: u16,
    pub value: SpecElementValue,
}

/// Mathematical counterpart of [`ElementValue`].
pub enum SpecElementValue {
    Byte(u16),
    Char(u16),
    Double(u16),
    Float(u16),
    Int(u16),
    Long(u16),
    Short(u16),
    Boolean(u16),
    String(u16),
    EnumConstValue { type_name_index: u16, const_name_index: u16 },
    Class(u16),
    AnnotationValue(SpecAnnotation),
    Array(Seq<SpecElementValue>),
}

pub open spec fn ev_view(e: ElementValue) -> SpecElementValue
    decreases e,
{
    match e {
        ElementValue::Byte(v) => SpecElementValue::Byte(v),
        ElementValue::Char(v) => SpecElementValue::Char(v),
        ElementValue::Double(v) => SpecElementValue::Double(v),
        ElementValue::Float(v) => SpecElementValue::Float(v),
        ElementValue::Int(v) => SpecElementValue::Int(v),
        ElementValue::Long(v) => SpecElementValue::Long(v),
        ElementValue::Short(v) => SpecElementValue::Short(v),
        ElementValue::Boolean(v) => SpecElementValue::Boolean(v),
        ElementValue::String(v) => SpecElementValue::String(v),
        ElementValue::EnumConstValue { type_name_index, const_name_index } => SpecElementValue::EnumConstValue {
            type_name_index,
            const_name_index,
        },
        ElementValue::Class(v) => SpecElementValue::Class(v),
        ElementValue::AnnotationValue(a) => SpecElementValue::AnnotationValue(annotation_view(a)),
        ElementValue::Array(v) => SpecElementValue::Array(evs_view(v@)),
    }
}

pub open spec fn evs_view(s: Seq<ElementValue>) -> Seq<SpecElementValue>
    decreases s,
{
    if s.len() == 0 {
        seq![]
    } else {
        evs_view(s.drop_last()).push(ev_view(s.last()))
    }
}

pub open spec fn annotation_view(a: Annotation) -> SpecAnnotation
    decreases a,
{
    SpecAnnotation {
        type_index: a.type_index,
        element_value_pairs: pairs_view(a.element_value_pairs@),
    }
}

pub open spec fn pairs_view(s: Seq<ElementValuePair>) -> Seq<SpecElementValuePair>
    decreases s,
{
    if s.len() == 0 {
        seq![]
    } else {
        pairs_view(s.drop_last()).push(pair_view(s.last()))
    }
}

pub open spec fn pair_view(p: ElementValuePair) -> SpecElementValuePair
    decreases p,
{
    SpecElementValuePair { element_name_index: p.element_name_index, value: ev_view(p.value) }
}

/// The views of a list of pairs are the views of its pairs, one for one.
pub proof fn lemma_pairs_view(s: Seq<ElementValuePair>)
    ensures
        pairs_view(s).len() == s.len(),
        forall|i: int| 0 <= i < s.len() ==> #[trigger] pairs_view(s)[i] == s[i]@,
    decreases s.len(),
{
    if s.len() > 0 {
        lemma_pairs_view(s.drop_last());
        assert forall|i: int| 0 <= i < s.len() implies #[trigger] pairs_view(s)[i] == s[i]@ by {
            if i < s.len() - 1 {
                assert(s.drop_last()[i] == s[i]);
            }
        }
    }
}

impl View for ElementValue {
    type V = SpecElementValue;

    open spec fn view(&self) -> SpecElementValue {
        ev_view(*self)
    }
}

impl View for Annotation {
    type V = SpecAnnotation;

    open spec fn view(&self) -> SpecAnnotation {
        annotation_view(*self)
    }
}

impl View for ElementValuePair {
    type V = SpecElementValuePair;

    open spec fn view(&self) -> SpecElementValuePair {
        pair_view(*self)
    }
}

/// The element value with a single constant pool index, for the kinds that have one.
pub open spec fn spec_index_ev(k: ElementKind, v: u16) -> SpecElementValue {
    match k {
        ElementKind::Byte => SpecElementValue::Byte(v),
        ElementKind::Char => SpecElementValue::Char(v),
        ElementKind::Double => SpecElementValue::Double(v),
        ElementKind::Float => SpecElementValue::Float(v),
        ElementKind::Int => SpecElementValue::Int(v),
        ElementKind::Long => SpecElementValue::Long(v),
        ElementKind::Short => SpecElementValue::Short(v),
        ElementKind::Boolean => SpecElementValue::Boolean(v),
        ElementKind::String => SpecElementValue::String(v),
        _ => SpecElementValue::Class(v),
    }
}

/// Reads the element value at `p`: a tag byte and its payload.
pub open spec fn spec_read_ev(d: Seq<u8>, p: int) -> SpecRead<SpecElementValue>
    decreases d.len() - p, 0int,
{
    if !avail(d, p, 1) {
        Err(spec_eof())
    } else {
        match spec_element_kind_from_tag(d[p]) {
            None => Err(SpecReadError::Format(SpecClassFormatErr::UnknownTag(d[p]))),
            Some(k) => match k {
                ElementKind::AnnotationInterface => match spec_read_annotation(d, p + 1) {
                    Err(e) => Err(e),
                    Ok((a, q)) => Ok((SpecElementValue::AnnotationValue(a), q)),
                },
                ElementKind::ArrayType => if !avail(d, p, 3) {
                    Err(spec_eof())
                } else {
                    match spec_read_evs(d, p + 3, be_u16(d[p + 1], d[p + 2]) as nat) {
                        Err(e) => Err(e),
                        Ok((xs, q)) => Ok((SpecElementValue::Array(xs), q)),
                    }
                },
                ElementKind::EnumClass => if !avail(d, p, 5) {
                    Err(spec_eof())
                } else {
                    Ok(
                        (
                            SpecElementValue::EnumConstValue {
                                type_name_index: be_u16(d[p + 1], d[p + 2]),
                                const_name_index: be_u16(d[p + 3], d[p + 4]),
                            },
                            p + 5,
                        ),
                    )
                },
                _ => if !avail(d, p, 3) {
                    Err(spec_eof())
                } else {
                    Ok((spec_index_ev(k, be_u16(d[p + 1], d[p + 2])), p + 3))
                },
            },
        }
    }
}

/// Reads `n` element values one after the other.
pub open spec fn spec_read_evs(d: Seq<u8>, p: int, n: nat) -> SpecRead<Seq<SpecElementValue>>
    decreases d.len() - p, 1int,
{
    if n == 0 {
        Ok((seq![], p))
    } else {
        match spec_read_ev(d, p) {
            Err(e) => Err(e),
            Ok((x, q)) => if p < q <= d.len() {
                prepend(seq![x], spec_read_evs(d, q, (n - 1) as nat))
            } else {
                Err(SpecReadError::Unsupported)
            },
        }
    }
}

/// Reads the annotation at `p`: type index, pair count and pairs.
pub open spec fn spec_read_annotation(d: Seq<u8>, p: int) -> SpecRead<SpecAnnotation>
    decreases d.len() - p, 0int,
{
    if !avail(d, p, 4) {
        Err(spec_eof())
    } else {
        match spec_read_pairs(d, p + 4, be_u16(d[p + 2], d[p + 3]) as nat) {
            Err(e) => Err(e),
            Ok((ps, q)) => Ok(
                (SpecAnnotation { type_index: be_u16(d[p], d[p + 1]), element_value_pairs: ps }, q),
            ),
        }
    }
}

/// Reads `n` element-value pairs one after the other.
pub open spec fn spec_read_pairs(d: Seq<u8>, p: int, n: nat) -> SpecRead<Seq<SpecElementValuePair>>
    decreases d.len() - p, 1int,
{
    if n == 0 {
        Ok((seq![], p))
    } else {
        match spec_read_pair(d, p) {
            Err(e) => Err(e),
            Ok((x, q)) => if p < q <= d.len() {
                prepend(seq![x], spec_read_pairs(d, q, (n - 1) as nat))
            } else {
                Err(SpecReadError::Unsupported)
            },
        }
    }
}

/// Reads the pair at `p`: name index, then the value.
pub open spec fn spec_read_pair(d: Seq<u8>, p: int) -> SpecRead<SpecElementValuePair>
    decreases d.len() - p, 0int,
{
    if !avail(d, p, 2) {
        Err(spec_eof())
    } else {
        match spec_read_ev(d, p + 2) {
            Err(e) => Err(e),
            Ok((v, q)) => Ok(
                (SpecElementValuePair { element_name_index: be_u16(d[p], d[p + 1]), value: v }, q),
            ),
        }
    }
}

/// Every successful read moves forward and stays within the input.
pub proof fn lemma_ev_advances(d: Seq<u8>, p: int)
    ensures
        spec_read_ev(d, p) matches Ok((_, q)) ==> p < q <= d.len(),
    decreases d.len() - p, 0int,
{
    if avail(d, p, 1) {
        match spec_element_kind_from_tag(d[p]) {
            Some(ElementKind::AnnotationInterface) => lemma_annotation_advances(d, p + 1),
            Some(ElementKind::ArrayType) => if avail(d, p, 3) {
                lemma_evs_advances(d, p + 3, be_u16(d[p + 1], d[p + 2]) as nat);
            },
            _ => {},
        }
    }
}

pub proof fn lemma_evs_advances(d: Seq<u8>, p: int, n: nat)
    requires
        0 <= p <= d.len(),
    ensures
        spec_read_evs(d, p, n) matches Ok((_, q)) ==> p <= q <= d.len(),
    decreases d.len() - p, 1int,
{
    if n > 0 {
        lemma_ev_advances(d, p);
        if let Ok((x, q)) = spec_read_ev(d, p) {
            if p < q <= d.len() {
                lemma_evs_advances(d, q, (n - 1) as nat);
            }
        }
    }
}

pub proof fn lemma_annotation_advances(d: Seq<u8>, p: int)
    ensures
        spec_read_annotation(d, p) matches Ok((_, q)) ==> p < q <= d.len(),
    decreases d.len() - p, 0int,
{
    if avail(d, p, 4) {
        lemma_pairs_advances(d, p + 4, be_u16(d[p + 2], d[p + 3]) as nat);
    }
}

pub proof fn lemma_pairs_advances(d: Seq<u8>, p: int, n: nat)
    requires
        0 <= p <= d.len(),
    ensures
        spec_read_pairs(d, p, n) matches Ok((_, q)) ==> p <= q <= d.len(),
    decreases d.len() - p, 1int,
{
    if n > 0 {
        lemma_pair_advances(d, p);
        if let Ok((x, q)) = spec_read_pair(d, p) {
            if p < q <= d.len() {
                lemma_pairs_advances(d, q, (n - 1) as nat);
            }
        }
    }
}

pub proof fn lemma_pair_advances(d: Seq<u8>, p: int)
    ensures
        spec_read_pair(d, p) matches Ok((_, q)) ==> p < q <= d.len(),
    decreases d.len() - p, 0int,
{
    if avail(d, p, 2) {
        lemma_ev_advances(d, p + 2);
    }
}

/// Reads `n` element-value pairs one after the other.
pub fn read_element_value_pairs(cursor: &mut ByteCursor, n: u16) -> (r: Result<Vec<ElementValuePair>, ReadError>)
    requires
        old(cursor).inv(),
    ensures
        final(cursor).inv(),
        final(cursor).data@ == old(cursor).data@,
        match spec_read_pairs(old(cursor).data@, old(cursor).pos as int, n as nat) {
            Ok((v, q)) => r matches Ok(x) && pairs_view(x@) == v && final(cursor).pos == q,
            Err(e) => r matches Err(x) && x@ == e,
        },
    decreases old(cursor).data@.len() - old(cursor).pos, 1int,
{
    let ghost d = cursor.data@;
    let ghost p0 = cursor.pos as int;
    let mut element_value_pairs: Vec<ElementValuePair> = Vec::new();
    let mut i: u16 = 0;
    while i < n
        invariant
            cursor.inv(),
            cursor.data@ == d,
            d == old(cursor).data@,
            p0 == old(cursor).pos,
            p0 <= cursor.pos,
            i <= n,
            spec_read_pairs(d, p0, n as nat) == prepend(
                pairs_view(element_value_pairs@),
                spec_read_pairs(d, cursor.pos as int, (n - i) as nat),
            ),
        decreases n - i,
    {
        let ghost pos = cursor.pos as int;
        let ghost k = (n - i) as nat;
        proof {
            lemma_pair_advances(d, pos);
        }
        let pair = match ElementValuePair::read(cursor) {
            Ok(x) => x,
            Err(e) => {
                assert(spec_read_pairs(d, pos, k) == Err::<(Seq<SpecElementValuePair>, int), SpecReadError>(e@));
                return Err(e);
            },
        };
        let ghost old_pairs = element_value_pairs@;
        element_value_pairs.push(pair);
        i = i + 1;
        proof {
            assert(element_value_pairs@.drop_last() =~= old_pairs);
            assert(pairs_view(element_value_pairs@) == pairs_view(old_pairs).push(pair_view(pair)));
            let rest = spec_read_pairs(d, cursor.pos as int, (k - 1) as nat);
            match rest {
                Ok((ys, q)) => {
                    assert(pairs_view(old_pairs) + (seq![pair_view(pair)] + ys)
                        =~= pairs_view(element_value_pairs@) + ys);
                },
                Err(_) => {},
            }
        }
    }
    proof {
        assert(pairs_view(element_value_pairs@) + seq![] =~= pairs_view(element_value_pairs@));
    }
    Ok(element_value_pairs)
}

impl Annotation {
    pub fn read(cursor: &mut ByteCursor) -> (r: Result<Annotation, ReadError>)
        requires
            old(cursor).inv(),
        ensures
            read_matches(
                *old(cursor),
                *final(cursor),
                r,
                spec_read_annotation(old(cursor).data@, old(cursor).pos as int),
            ),
        decreases old(cursor).data@.len() - old(cursor).pos, 0int,
    {
        let type_index = ru16(cursor)?;
        let num_element_value_pairs = ru16(cursor)?;
        let element_value_pairs = read_element_value_pairs(cursor, num_element_value_pairs)?;
        Ok(Annotation { type_index, element_value_pairs })
    }
}

impl ElementValuePair {
    pub fn read(cursor: &mut ByteCursor) -> (r: Result<ElementValuePair, ReadError>)
        requires
            old(cursor).inv(),
        ensures
            read_matches(
                *old(cursor),
                *final(cursor),
                r,
                spec_read_pair(old(cursor).data@, old(cursor).pos as int),
            ),
        decreases old(cursor).data@.len() - old(cursor).pos, 0int,
    {
        let element_name_index = ru16(cursor)?;
        let value = ElementValue::read(cursor)?;
        Ok(ElementValuePair { element_name_index, value })
    }
}

impl ElementValue {
    pub fn read(cursor: &mut ByteCursor) -> (r: Result<ElementValue, ReadError>)
        requires
            old(cursor).inv(),
        ensures
            read_matches(
                *old(cursor),
                *final(cursor),
                r,
                spec_read_ev(old(cursor).data@, old(cursor).pos as int),
            ),
        decreases old(cursor).data@.len() - old(cursor).pos, 0int,
    {
        let ghost d = cursor.data@;
        let ghost p0 = cursor.pos as int;
        let raw_tag = ru8(cursor)?;
        let tag = match ElementKind::from_tag(raw_tag) {
            Some(t) => t,
            None => return Err(ReadError::Format(ClassFormatErr::UnknownTag(raw_tag))),
        };
        let ev = match tag {
            ElementKind::Byte => ElementValue::Byte(ru16(cursor)?),
            ElementKind::Char => ElementValue::Char(ru16(cursor)?),
            ElementKind::Double => ElementValue::Double(ru16(cursor)?),
            ElementKind::Float => ElementValue::Float(ru16(cursor)?),
            ElementKind::Int => ElementValue::Int(ru16(cursor)?),
            ElementKind::Long => ElementValue::Long(ru16(cursor)?),
            ElementKind::Short => ElementValue::Short(ru16(cursor)?),
            ElementKind::Boolean => ElementValue::Boolean(ru16(cursor)?),
            ElementKind::String => ElementValue::String(ru16(cursor)?),
            ElementKind::EnumClass => {
                let type_name_index = ru16(cursor)?;
                let const_name_index = ru16(cursor)?;
                ElementValue::EnumConstValue { type_name_index, const_name_index }
            },
            ElementKind::Class => ElementValue::Class(ru16(cursor)?),
            ElementKind::AnnotationInterface => ElementValue::AnnotationValue(Annotation::read(cursor)?),
            ElementKind::ArrayType => {
                let element_types = ru16(cursor)?;
                let mut elements: Vec<ElementValue> = Vec::new();
                let mut i: u16 = 0;
                while i < element_types
                    invariant
                        cursor.inv(),
                        cursor.data@ == d,
                        d == old(cursor).data@,
                        p0 == old(cursor).pos,
                        p0 + 3 <= cursor.pos,
                        i <= element_types,
                        avail(d, p0, 3),
                        spec_element_kind_from_tag(d[p0]) == Some(ElementKind::ArrayType),
                        element_types == be_u16(d[p0 + 1], d[p0 + 2]),
                        spec_read_evs(d, p0 + 3, element_types as nat) == prepend(
                            evs_view(elements@),
                            spec_read_evs(d, cursor.pos as int, (element_types - i) as nat),
                        ),
                    decreases element_types - i,
                {
                    let ghost pos = cursor.pos as int;
                    let ghost k = (element_types - i) as nat;
                    proof {
                        lemma_ev_advances(d, pos);
                    }
                    let x = match ElementValue::read(cursor) {
                        Ok(x) => x,
                        Err(e) => {
                            assert(spec_read_evs(d, pos, k) == Err::<(Seq<SpecElementValue>, int), SpecReadError>(e@));
                            return Err(e);
                        },
                    };
                    let ghost old_elems = elements@;
                    elements.push(x);
                    i = i + 1;
                    proof {
                        assert(elements@.drop_last() =~= old_elems);
                        assert(evs_view(elements@) == evs_view(old_elems).push(ev_view(x)));
                        let rest = spec_read_evs(d, cursor.pos as int, (k - 1) as nat);
                        match rest {
                            Ok((ys, q)) => {
                                assert(evs_view(old_elems) + (seq![ev_view(x)] + ys)
                                    =~= evs_view(elements@) + ys);
                            },
                            Err(_) => {},
                        }
                    }
                }
                proof {
                    assert(evs_view(elements@) + seq![] =~= evs_view(elements@));
                }
                ElementValue::Array(elements)
            },
        };
        Ok(ev)
    }
}

} // verus!
