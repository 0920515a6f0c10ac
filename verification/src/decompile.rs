//! The structural decoder: the header, the pool, the class's own numbers,
//! then the tables of interfaces, fields, methods and attributes, each
//! read where the one before it ended.
use vstd::prelude::*;

use crate::attribute::{Attribute, AttributeView};
use crate::attribute_decoder::{
    lemma_attributes_counted, lemma_attributes_forward, read_attributes, spec_attribute_table,
};
use crate::class::{ClassFile, ClassFileView, FieldInfo, FieldInfoView, MethodInfo, MethodInfoView, CAFE_BABE};
use crate::constant_value::{constant_value, spec_constant_value, FieldValue, FieldValueView};
use crate::cursor::{be16, be32, eof, fits, spec_u16, spec_u32, views, Cursor, Decoded};
use crate::error::DecompileError;
use crate::pool::{
    all_tagged, pool_wf, resolve_utf8_cp_entry, spec_resolve_utf8, ConstantPool, CpInfoView,
};
use crate::pool_decoder::{lemma_pool, read_constant_pool, slots_for, spec_pool};
use crate::table::{lemma_counted_forward, lemma_counted_len, read_counted_u16, spec_counted};

verus! {

/// What a decoder of whole values yields: the value or the error.
pub type DecompileResult<T> = Result<T, DecompileError>;

/// The constant of a field with the attributes `attrs`, taken from the
/// attribute at `i` on and given that the attributes before `i` gave
/// `found`. A field has the constant that its `ConstantValue` attribute
/// names, and none without such an attribute; a second such attribute is
/// `InvalidConstantValue`.
pub open spec fn spec_field_value_from(
    pool: Seq<CpInfoView>,
    attrs: Seq<AttributeView>,
    i: int,
    found: Option<FieldValueView>,
    offset: u64,
) -> Result<Option<FieldValueView>, DecompileError>
    decreases attrs.len() - i,
{
    if i < 0 || i >= attrs.len() {
        Ok(found)
    } else {
        match attrs[i] {
            AttributeView::ConstantValue { constant_value_index, .. } => if found is Some {
                Err(DecompileError::InvalidConstantValue(constant_value_index))
            } else {
                match spec_constant_value(pool, constant_value_index, offset) {
                    Err(e) => Err(e),
                    Ok(v) => spec_field_value_from(pool, attrs, i + 1, Some(v), offset),
                }
            },
            _ => spec_field_value_from(pool, attrs, i + 1, found, offset),
        }
    }
}

/// The constant of a field with the attributes `attrs`.
pub open spec fn spec_field_value(pool: Seq<CpInfoView>, attrs: Seq<AttributeView>, offset: u64) -> Result<
    Option<FieldValueView>,
    DecompileError,
> {
    spec_field_value_from(pool, attrs, 0, None, offset)
}

/// The field at `pos`: flags, name index, descriptor index and attribute
/// count, read together; the name and the descriptor resolved to text; the
/// attributes; and the constant that they give.
pub open spec fn spec_field(b: Seq<u8>, pos: int, end: int, pool: Seq<CpInfoView>) -> Decoded<FieldInfoView> {
    if !fits(pos, end, 8) {
        Err(eof(pos))
    } else {
        match spec_resolve_utf8(pool, be16(b, pos + 2), (pos + 8) as u64) {
            Err(e) => Err(e),
            Ok(name) => match spec_resolve_utf8(pool, be16(b, pos + 4), (pos + 8) as u64) {
                Err(e) => Err(e),
                Ok(descriptor) => match spec_attribute_table(b, pos + 8, end, be16(b, pos + 6) as nat, pool) {
                    Err(e) => Err(e),
                    Ok((attributes, p)) => match spec_field_value(pool, attributes, p as u64) {
                        Err(e) => Err(e),
                        Ok(value) => Ok(
                            (
                                FieldInfoView {
                                    access_flags: be16(b, pos),
                                    name,
                                    descriptor,
                                    value,
                                    attributes,
                                },
                                p,
                            ),
                        ),
                    },
                },
            },
        }
    }
}

/// `n` fields one after another from `pos`, appended to `acc`.
pub open spec fn spec_fields(
    b: Seq<u8>,
    pos: int,
    end: int,
    n: nat,
    acc: Seq<FieldInfoView>,
    pool: Seq<CpInfoView>,
) -> Decoded<Seq<FieldInfoView>>
    decreases n,
{
    if n == 0 {
        Ok((acc, pos))
    } else {
        match spec_field(b, pos, end, pool) {
            Err(e) => Err(e),
            Ok((f, p)) => spec_fields(b, p, end, (n - 1) as nat, acc.push(f), pool),
        }
    }
}

/// The method at `pos`: flags, name index, descriptor index and attribute
/// count, read together, then the attributes.
pub open spec fn spec_method(b: Seq<u8>, pos: int, end: int, pool: Seq<CpInfoView>) -> Decoded<
    MethodInfoView,
> {
    if !fits(pos, end, 8) {
        Err(eof(pos))
    } else {
        match spec_attribute_table(b, pos + 8, end, be16(b, pos + 6) as nat, pool) {
            Err(e) => Err(e),
            Ok((attributes, p)) => Ok(
                (
                    MethodInfoView {
                        access_flags: be16(b, pos),
                        name_index: be16(b, pos + 2),
                        descriptor_index: be16(b, pos + 4),
                        attributes_count: be16(b, pos + 6),
                        attributes,
                    },
                    p,
                ),
            ),
        }
    }
}

/// `n` methods one after another from `pos`, appended to `acc`.
pub open spec fn spec_methods(
    b: Seq<u8>,
    pos: int,
    end: int,
    n: nat,
    acc: Seq<MethodInfoView>,
    pool: Seq<CpInfoView>,
) -> Decoded<Seq<MethodInfoView>>
    decreases n,
{
    if n == 0 {
        Ok((acc, pos))
    } else {
        match spec_method(b, pos, end, pool) {
            Err(e) => Err(e),
            Ok((m, p)) => spec_methods(b, p, end, (n - 1) as nat, acc.push(m), pool),
        }
    }
}

/// Whether every field of `s` is well formed.
pub open spec fn all_fields_wf(s: Seq<FieldInfoView>) -> bool {
    forall|i: int| 0 <= i < s.len() ==> (#[trigger] s[i]).wf()
}

/// Whether every method of `s` is well formed.
pub open spec fn all_methods_wf(s: Seq<MethodInfoView>) -> bool {
    forall|i: int| 0 <= i < s.len() ==> (#[trigger] s[i]).wf()
}

/// A run of `n` fields that decodes adds `n` well-formed fields to `acc`
/// and ends inside the window.
pub proof fn lemma_fields_wf(
    b: Seq<u8>,
    pos: int,
    end: int,
    n: nat,
    acc: Seq<FieldInfoView>,
    pool: Seq<CpInfoView>,
)
    requires
        0 <= pos <= end <= b.len(),
        all_fields_wf(acc),
    ensures
        spec_fields(b, pos, end, n, acc, pool) matches Ok((v, p)) ==> v.len() == acc.len() + n
            && all_fields_wf(v) && pos <= p <= end,
    decreases n,
{
    if n > 0 && fits(pos, end, 8) {
        lemma_attributes_counted(b, pos + 8, end, be16(b, pos + 6) as nat, Seq::empty(), pool);
        lemma_attributes_forward(b, pos + 8, end, be16(b, pos + 6) as nat, Seq::empty(), pool);
        match spec_field(b, pos, end, pool) {
            Ok((f, p)) => {
                assert forall|i: int| 0 <= i < acc.push(f).len() implies (#[trigger] acc.push(f)[i]).wf() by {
                    if i < acc.len() {
                        assert(acc[i].wf());
                    }
                }
                lemma_fields_wf(b, p, end, (n - 1) as nat, acc.push(f), pool);
            },
            Err(e) => {},
        }
    }
}

/// A run of `n` methods that decodes adds `n` well-formed methods to `acc`
/// and ends inside the window.
pub proof fn lemma_methods_wf(
    b: Seq<u8>,
    pos: int,
    end: int,
    n: nat,
    acc: Seq<MethodInfoView>,
    pool: Seq<CpInfoView>,
)
    requires
        0 <= pos <= end <= b.len(),
        all_methods_wf(acc),
    ensures
        spec_methods(b, pos, end, n, acc, pool) matches Ok((v, p)) ==> v.len() == acc.len() + n
            && all_methods_wf(v) && pos <= p <= end,
    decreases n,
{
    if n > 0 && fits(pos, end, 8) {
        lemma_attributes_counted(b, pos + 8, end, be16(b, pos + 6) as nat, Seq::empty(), pool);
        lemma_attributes_forward(b, pos + 8, end, be16(b, pos + 6) as nat, Seq::empty(), pool);
        match spec_method(b, pos, end, pool) {
            Ok((m, p)) => {
                assert forall|i: int| 0 <= i < acc.push(m).len() implies (#[trigger] acc.push(m)[i]).wf() by {
                    if i < acc.len() {
                        assert(acc[i].wf());
                    }
                }
                lemma_methods_wf(b, p, end, (n - 1) as nat, acc.push(m), pool);
            },
            Err(e) => {},
        }
    }
}

/// What follows the pool, from `pos`: the access flags, this class and
/// the super class, read together; then the counted tables of interfaces,
/// fields, methods and attributes. `head` holds the magic, the version and
/// the pool. Bytes after the last attribute are not looked at.
pub open spec fn spec_class_body(b: Seq<u8>, pos: int, end: int, head: ClassFileView) -> Result<
    ClassFileView,
    DecompileError,
> {
    let pool = head.constant_pool;
    if !fits(pos, end, 6) {
        Err(eof(pos))
    } else {
        match spec_counted::<u16>(b, pos + 6, end) {
            Err(e) => Err(e),
            Ok(((interfaces_count, interfaces), p1)) => match spec_u16(b, p1, end) {
                Err(e) => Err(e),
                Ok((fields_count, p2)) => match spec_fields(b, p2, end, fields_count as nat, Seq::empty(), pool) {
                    Err(e) => Err(e),
                    Ok((fields, p3)) => match spec_u16(b, p3, end) {
                        Err(e) => Err(e),
                        Ok((methods_count, p4)) => match spec_methods(
                            b,
                            p4,
                            end,
                            methods_count as nat,
                            Seq::empty(),
                            pool,
                        ) {
                            Err(e) => Err(e),
                            Ok((methods, p5)) => match spec_u16(b, p5, end) {
                                Err(e) => Err(e),
                                Ok((attributes_count, p6)) => match spec_attribute_table(
                                    b,
                                    p6,
                                    end,
                                    attributes_count as nat,
                                    pool,
                                ) {
                                    Err(e) => Err(e),
                                    Ok((attributes, p7)) => Ok(
                                        ClassFileView {
                                            access_flags: be16(b, pos),
                                            this_class: be16(b, pos + 2),
                                            super_class: be16(b, pos + 4),
                                            interfaces_count,
                                            interfaces,
                                            fields_count,
                                            fields,
                                            methods_count,
                                            methods,
                                            attributes_count,
                                            attributes,
                                            ..head
                                        },
                                    ),
                                },
                            },
                        },
                    },
                },
            },
        }
    }
}

/// The class that the bytes `b` hold. The magic, the two version numbers
/// and the pool count are each read on their own; a magic other than
/// `0xCAFEBABE` is `InvalidMagicNumber`.
pub open spec fn spec_class(b: Seq<u8>) -> Result<ClassFileView, DecompileError> {
    let end = b.len() as int;
    match spec_u32(b, 0, end) {
        Err(e) => Err(e),
        Ok((magic, p1)) => if magic != CAFE_BABE {
            Err(DecompileError::InvalidMagicNumber(magic))
        } else {
            match spec_u16(b, p1, end) {
                Err(e) => Err(e),
                Ok((minor_version, p2)) => match spec_u16(b, p2, end) {
                    Err(e) => Err(e),
                    Ok((major_version, p3)) => match spec_u16(b, p3, end) {
                        Err(e) => Err(e),
                        Ok((constant_pool_count, p4)) => match spec_pool(b, p4, end, constant_pool_count) {
                            Err(e) => Err(e),
                            Ok((constant_pool, p5)) => spec_class_body(
                                b,
                                p5,
                                end,
                                ClassFileView {
                                    minor_version,
                                    major_version,
                                    constant_pool,
                                    ..ClassFileView::blank(magic)
                                },
                            ),
                        },
                    },
                },
            }
        },
    }
}

/// What follows the pool decodes to a class that keeps the head it was
/// given and that is well formed if the pool of the head is.
pub proof fn lemma_class_body(b: Seq<u8>, pos: int, end: int, head: ClassFileView)
    requires
        0 <= pos <= end <= b.len(),
    ensures
        spec_class_body(b, pos, end, head) matches Ok(class) ==> {
            &&& class.magic == head.magic
            &&& class.minor_version == head.minor_version
            &&& class.major_version == head.major_version
            &&& class.constant_pool == head.constant_pool
            &&& pool_wf(head.constant_pool) ==> class.wf()
        },
{
    let pool = head.constant_pool;
    if fits(pos, end, 6) {
        lemma_counted_len::<u16>(b, pos + 6, end);
        lemma_counted_forward::<u16>(b, pos + 6, end);
        match spec_counted::<u16>(b, pos + 6, end) {
            Ok(((interfaces_count, interfaces), p1)) => match spec_u16(b, p1, end) {
                Ok((fields_count, p2)) => {
                    lemma_fields_wf(b, p2, end, fields_count as nat, Seq::empty(), pool);
                    match spec_fields(b, p2, end, fields_count as nat, Seq::empty(), pool) {
                        Ok((fields, p3)) => match spec_u16(b, p3, end) {
                            Ok((methods_count, p4)) => {
                                lemma_methods_wf(b, p4, end, methods_count as nat, Seq::empty(), pool);
                                match spec_methods(b, p4, end, methods_count as nat, Seq::empty(), pool) {
                                    Ok((methods, p5)) => match spec_u16(b, p5, end) {
                                        Ok((attributes_count, p6)) => {
                                            lemma_attributes_counted(
                                                b,
                                                p6,
                                                end,
                                                attributes_count as nat,
                                                Seq::empty(),
                                                pool,
                                            );
                                        },
                                        Err(e) => {},
                                    },
                                    Err(e) => {},
                                }
                            },
                            Err(e) => {},
                        },
                        Err(e) => {},
                    }
                },
                Err(e) => {},
            },
            Err(e) => {},
        }
    }
}

/// The pool count of a class file: the `u16` at offset 8.
pub open spec fn declared_pool_count(b: Seq<u8>) -> u16 {
    be16(b, 8)
}

/// A class that decodes is well formed: its pool is, it has one slot for
/// each index from 1 to the declared count less one, and every count is
/// the length of its table. Its magic is `0xCAFEBABE`.
pub proof fn lemma_decoded_class_is_well_formed(b: Seq<u8>)
    ensures
        spec_class(b) matches Ok(class) ==> {
            &&& class.wf()
            &&& class.magic == CAFE_BABE
            &&& class.constant_pool.len() == slots_for(declared_pool_count(b))
            &&& all_tagged(class.constant_pool)
        },
{
    let end = b.len() as int;
    if spec_class(b) is Ok {
        lemma_pool(b, 10, end, declared_pool_count(b));
        let (constant_pool, p5) = spec_pool(b, 10, end, declared_pool_count(b))->Ok_0;
        lemma_class_body(
            b,
            p5,
            end,
            ClassFileView {
                minor_version: be16(b, 4),
                major_version: be16(b, 6),
                constant_pool,
                ..ClassFileView::blank(be32(b, 0))
            },
        );
    }
}

/// Whether `r` is what decoding the bytes `b` gives: the class that they
/// hold, or the error at which decoding stops.
pub open spec fn decodes_to(b: Seq<u8>, r: Result<ClassFile, DecompileError>) -> bool {
    match spec_class(b) {
        Ok(class) => r matches Ok(c) && c@ == class && c.wf(),
        Err(e) => r matches Err(g) && g == e,
    }
}

/// The constant that the attributes of a field give it.
pub fn field_value(pool: &ConstantPool, attributes: &Vec<Attribute>, offset: u64) -> (r: Result<
    Option<FieldValue>,
    DecompileError,
>)
    ensures
        match spec_field_value(pool@, views(attributes@), offset) {
            Ok(v) => r matches Ok(x) && (match x {
                Some(c) => v matches Some(w) && c@ == w,
                None => v is None,
            }),
            Err(e) => r matches Err(g) && g == e,
        },
{
    let mut found: Option<FieldValue> = None;
    let mut i: usize = 0;
    while i < attributes.len()
        invariant
            i <= attributes@.len(),
            spec_field_value(pool@, views(attributes@), offset) == spec_field_value_from(
                pool@,
                views(attributes@),
                i as int,
                match found {
                    Some(c) => Some(c@),
                    None => None,
                },
                offset,
            ),
        decreases attributes@.len() - i,
    {
        assert(views(attributes@)[i as int] == attributes@[i as int]@);
        match &attributes[i] {
            Attribute::ConstantValue { constant_value_index, .. } => {
                if found.is_some() {
                    return Err(DecompileError::InvalidConstantValue(*constant_value_index));
                }
                let v = constant_value(pool, *constant_value_index, offset)?;
                found = Some(v);
            },
            _ => {},
        }
        i = i + 1;
    }
    Ok(found)
}

/// Decodes one field.
pub fn read_field_info(cur: &mut Cursor, pool: &ConstantPool) -> (r: Result<FieldInfo, DecompileError>)
    requires
        old(cur).inv(),
    ensures
        final(cur).decoded(
            *old(cur),
            r,
            spec_field(old(cur).bytes@, old(cur).pos as int, old(cur).end as int, pool@),
        ),
{
    cur.need(8)?;
    let access_flags = cur.take_u16();
    let name_index = cur.take_u16();
    let descriptor_index = cur.take_u16();
    let attributes_count = cur.take_u16();
    let name = resolve_utf8_cp_entry(pool, name_index, cur.position())?;
    let descriptor = resolve_utf8_cp_entry(pool, descriptor_index, cur.position())?;
    let attributes = read_attributes(cur, attributes_count as usize, pool)?;
    let value = field_value(pool, &attributes, cur.position())?;
    Ok(FieldInfo { access_flags, name, descriptor, value, attributes })
}

/// Decodes one method.
pub fn read_method_info(cur: &mut Cursor, pool: &ConstantPool) -> (r: Result<MethodInfo, DecompileError>)
    requires
        old(cur).inv(),
    ensures
        final(cur).decoded(
            *old(cur),
            r,
            spec_method(old(cur).bytes@, old(cur).pos as int, old(cur).end as int, pool@),
        ),
{
    cur.need(8)?;
    let access_flags = cur.take_u16();
    let name_index = cur.take_u16();
    let descriptor_index = cur.take_u16();
    let attributes_count = cur.take_u16();
    let attributes = read_attributes(cur, attributes_count as usize, pool)?;
    Ok(MethodInfo { access_flags, name_index, descriptor_index, attributes_count, attributes })
}

/// Decodes a table of `n` fields.
pub fn read_fields(cur: &mut Cursor, n: usize, pool: &ConstantPool) -> (r: Result<
    Vec<FieldInfo>,
    DecompileError,
>)
    requires
        old(cur).inv(),
    ensures
        final(cur).decoded_list(
            *old(cur),
            r,
            spec_fields(old(cur).bytes@, old(cur).pos as int, old(cur).end as int, n as nat, Seq::empty(), pool@),
        ),
        r matches Ok(v) ==> v@.len() == n,
{
    let mut out: Vec<FieldInfo> = Vec::new();
    let mut i: usize = 0;
    assert(views(out@) =~= Seq::<FieldInfoView>::empty());
    while i < n
        invariant
            i <= n,
            out@.len() == i,
            cur.same_window(*old(cur)),
            spec_fields(old(cur).bytes@, old(cur).pos as int, old(cur).end as int, n as nat, Seq::empty(), pool@)
                == spec_fields(cur.bytes@, cur.pos as int, cur.end as int, (n - i) as nat, views(out@), pool@),
        decreases n - i,
    {
        let ghost before = views(out@);
        let f = read_field_info(cur, pool)?;
        out.push(f);
        assert(views(out@) =~= before.push(f@));
        i = i + 1;
    }
    Ok(out)
}

/// Decodes a table of `n` methods.
pub fn read_methods(cur: &mut Cursor, n: usize, pool: &ConstantPool) -> (r: Result<
    Vec<MethodInfo>,
    DecompileError,
>)
    requires
        old(cur).inv(),
    ensures
        final(cur).decoded_list(
            *old(cur),
            r,
            spec_methods(old(cur).bytes@, old(cur).pos as int, old(cur).end as int, n as nat, Seq::empty(), pool@),
        ),
        r matches Ok(v) ==> v@.len() == n,
{
    let mut out: Vec<MethodInfo> = Vec::new();
    let mut i: usize = 0;
    assert(views(out@) =~= Seq::<MethodInfoView>::empty());
    while i < n
        invariant
            i <= n,
            out@.len() == i,
            cur.same_window(*old(cur)),
            spec_methods(old(cur).bytes@, old(cur).pos as int, old(cur).end as int, n as nat, Seq::empty(), pool@)
                == spec_methods(cur.bytes@, cur.pos as int, cur.end as int, (n - i) as nat, views(out@), pool@),
        decreases n - i,
    {
        let ghost before = views(out@);
        let m = read_method_info(cur, pool)?;
        out.push(m);
        assert(views(out@) =~= before.push(m@));
        i = i + 1;
    }
    Ok(out)
}

/// Decodes the class file that `bytes` hold.
pub fn decode_class(bytes: &[u8]) -> (r: Result<ClassFile, DecompileError>)
    ensures
        decodes_to(bytes@, r),
{
    let mut cur = Cursor::new(bytes);
    let magic = cur.read_u32()?;
    if magic != CAFE_BABE {
        return Err(DecompileError::InvalidMagicNumber(magic));
    }
    let minor_version = cur.read_u16()?;
    let major_version = cur.read_u16()?;
    let constant_pool_count = cur.read_u16()?;
    let constant_pool = read_constant_pool(&mut cur, constant_pool_count)?;
    cur.need(6)?;
    let access_flags = cur.take_u16();
    let this_class = cur.take_u16();
    let super_class = cur.take_u16();
    let (interfaces_count, interfaces) = read_counted_u16(&mut cur)?;
    let fields_count = cur.read_u16()?;
    let fields = read_fields(&mut cur, fields_count as usize, &constant_pool)?;
    let methods_count = cur.read_u16()?;
    let methods = read_methods(&mut cur, methods_count as usize, &constant_pool)?;
    let attributes_count = cur.read_u16()?;
    let attributes = read_attributes(&mut cur, attributes_count as usize, &constant_pool)?;
    proof {
        lemma_decoded_class_is_well_formed(bytes@);
    }
    Ok(
        ClassFile {
            magic,
            major_version,
            minor_version,
            constant_pool,
            access_flags,
            this_class,
            super_class,
            interfaces_count,
            interfaces,
            fields_count,
            fields,
            methods_count,
            methods,
            attributes_count,
            attributes,
        },
    )
}

/// A class file waiting to be decoded: where it came from, and its bytes.
#[derive(Debug, PartialEq, Eq)]
pub struct Decompile {
    pub path: String,
    pub contents: Vec<u8>,
}

impl Decompile {
    /// Takes the file at `path` with the bytes read from it; `contents` is
    /// `None` when no file is there, which is `NoSuchFile` with the path.
    pub fn new(path: String, contents: Option<Vec<u8>>) -> (r: DecompileResult<Decompile>)
        ensures
            match contents {
                Some(bytes) => r matches Ok(d) && d.path == path && d.contents == bytes,
                None => r matches Err(e) && e == DecompileError::NoSuchFile(path),
            },
    {
        match contents {
            Some(bytes) => Ok(Decompile { path, contents: bytes }),
            None => Err(DecompileError::NoSuchFile(path)),
        }
    }

    /// Decodes the bytes into the class that they hold.
    pub fn decompile(&self) -> (r: DecompileResult<ClassFile>)
        ensures
            decodes_to(self.contents@, r),
    {
        decode_class(self.contents.as_slice())
    }
}

} // verus!
