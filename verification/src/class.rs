//! The class model: the header, the constant pool, and the tables of
//! fields, methods and attributes.
use vstd::prelude::*;

use crate::attribute::{all_attributes_counted, Attribute, AttributeView};
use crate::constant_value::{FieldValue, FieldValueView};
use crate::cursor::views;
use crate::pool::{pool_wf, spec_lookup, ConstantPool, CpInfo, CpInfoView};

verus! {

/// The signature that opens every class file.
pub const CAFE_BABE: u32 = 0xCAFE_BABE;

/// One field: its flags, its name and descriptor as text, the constant it
/// starts with if it has one, and its attributes.
#[derive(Debug, PartialEq, Eq)]
pub struct FieldInfo {
    pub access_flags: u16,
    pub name: String,
    pub descriptor: String,
    pub value: Option<FieldValue>,
    pub attributes: Vec<Attribute>,
}

/// The mathematical value of a `FieldInfo`.
pub struct FieldInfoView {
    pub access_flags: u16,
    pub name: Seq<char>,
    pub descriptor: Seq<char>,
    pub value: Option<FieldValueView>,
    pub attributes: Seq<AttributeView>,
}

impl View for FieldInfo {
    type V = FieldInfoView;

    open spec fn view(&self) -> FieldInfoView {
        FieldInfoView {
            access_flags: self.access_flags,
            name: self.name@,
            descriptor: self.descriptor@,
            value: match self.value {
                Some(v) => Some(v@),
                None => None,
            },
            attributes: views(self.attributes@),
        }
    }
}

/// One method: its flags, the pool indices of its name and descriptor, and
/// its attributes.
#[derive(Debug, PartialEq, Eq)]
pub struct MethodInfo {
    pub access_flags: u16,
    pub name_index: u16,
    pub descriptor_index: u16,
    pub attributes_count: u16,
    pub attributes: Vec<Attribute>,
}

/// The mathematical value of a `MethodInfo`.
pub struct MethodInfoView {
    pub access_flags: u16,
    pub name_index: u16,
    pub descriptor_index: u16,
    pub attributes_count: u16,
    pub attributes: Seq<AttributeView>,
}

impl View for MethodInfo {
    type V = MethodInfoView;

    open spec fn view(&self) -> MethodInfoView {
        MethodInfoView {
            access_flags: self.access_flags,
            name_index: self.name_index,
            descriptor_index: self.descriptor_index,
            attributes_count: self.attributes_count,
            attributes: views(self.attributes@),
        }
    }
}

/// A decoded class file.
#[derive(Debug, PartialEq, Eq)]
pub struct ClassFile {
    pub magic: u32,
    pub major_version: u16,
    pub minor_version: u16,
    pub constant_pool: ConstantPool,
    pub access_flags: u16,
    pub this_class: u16,
    pub super_class: u16,
    pub interfaces_count: u16,
    pub interfaces: Vec<u16>,
    pub fields_count: u16,
    pub fields: Vec<FieldInfo>,
    pub methods_count: u16,
    pub methods: Vec<MethodInfo>,
    pub attributes_count: u16,
    pub attributes: Vec<Attribute>,
}

/// The mathematical value of a `ClassFile`.
pub struct ClassFileView {
    pub magic: u32,
    pub major_version: u16,
    pub minor_version: u16,
    pub constant_pool: Seq<CpInfoView>,
    pub access_flags: u16,
    pub this_class: u16,
    pub super_class: u16,
    pub interfaces_count: u16,
    pub interfaces: Seq<u16>,
    pub fields_count: u16,
    pub fields: Seq<FieldInfoView>,
    pub methods_count: u16,
    pub methods: Seq<MethodInfoView>,
    pub attributes_count: u16,
    pub attributes: Seq<AttributeView>,
}

impl View for ClassFile {
    type V = ClassFileView;

    open spec fn view(&self) -> ClassFileView {
        ClassFileView {
            magic: self.magic,
            major_version: self.major_version,
            minor_version: self.minor_version,
            constant_pool: self.constant_pool@,
            access_flags: self.access_flags,
            this_class: self.this_class,
            super_class: self.super_class,
            interfaces_count: self.interfaces_count,
            interfaces: self.interfaces@,
            fields_count: self.fields_count,
            fields: views(self.fields@),
            methods_count: self.methods_count,
            methods: views(self.methods@),
            attributes_count: self.attributes_count,
            attributes: views(self.attributes@),
        }
    }
}

impl ClassFileView {
    /// The class with the signature `magic` and nothing else: every number
    /// zero, the pool and every table empty.
    pub open spec fn blank(magic: u32) -> ClassFileView {
        ClassFileView {
            magic,
            major_version: 0,
            minor_version: 0,
            constant_pool: Seq::empty(),
            access_flags: 0,
            this_class: 0,
            super_class: 0,
            interfaces_count: 0,
            interfaces: Seq::empty(),
            fields_count: 0,
            fields: Seq::empty(),
            methods_count: 0,
            methods: Seq::empty(),
            attributes_count: 0,
            attributes: Seq::empty(),
        }
    }
}

impl FieldInfoView {
    /// Every count inside the attributes of the field is the length of the
    /// table that it counts.
    pub open spec fn wf(self) -> bool {
        all_attributes_counted(self.attributes)
    }
}

impl MethodInfoView {
    /// The method has as many attributes as it says, and every count
    /// inside them is the length of the table that it counts.
    pub open spec fn wf(self) -> bool {
        self.attributes.len() == self.attributes_count && all_attributes_counted(self.attributes)
    }
}

impl ClassFileView {
    /// The pool is well formed, and every count, in the class and in what
    /// it holds, is the length of the table that it counts.
    pub open spec fn wf(self) -> bool {
        &&& pool_wf(self.constant_pool)
        &&& self.interfaces.len() == self.interfaces_count
        &&& self.fields.len() == self.fields_count
        &&& self.methods.len() == self.methods_count
        &&& self.attributes.len() == self.attributes_count
        &&& forall|i: int| 0 <= i < self.fields.len() ==> (#[trigger] self.fields[i]).wf()
        &&& forall|i: int| 0 <= i < self.methods.len() ==> (#[trigger] self.methods[i]).wf()
        &&& all_attributes_counted(self.attributes)
    }
}

impl ClassFile {
    /// The pool of the class is well formed, and every count, in the class
    /// and in what it holds, is the length of the table that it counts.
    pub open spec fn wf(&self) -> bool {
        self@.wf()
    }

    /// A class with the signature `magic` and nothing else.
    pub fn new(magic: u32) -> (class_file: ClassFile)
        ensures
            class_file@ == ClassFileView::blank(magic),
            class_file.wf(),
    {
        let class_file = ClassFile {
            magic,
            major_version: 0,
            minor_version: 0,
            constant_pool: ConstantPool::new(),
            access_flags: 0,
            this_class: 0,
            super_class: 0,
            interfaces_count: 0,
            interfaces: Vec::new(),
            fields_count: 0,
            fields: Vec::new(),
            methods_count: 0,
            methods: Vec::new(),
            attributes_count: 0,
            attributes: Vec::new(),
        };
        assert(class_file@.fields =~= Seq::<FieldInfoView>::empty());
        assert(class_file@.methods =~= Seq::<MethodInfoView>::empty());
        assert(class_file@.attributes =~= Seq::<AttributeView>::empty());
        class_file
    }

    /// Appends `cp_info` to the pool at the next index; a `Long` or
    /// `Double` takes the index after it too.
    pub fn add_constant_pool_entry(&mut self, cp_info: CpInfo)
        requires
            old(self).wf(),
        ensures
            final(self).wf(),
            final(self)@ == (ClassFileView {
                constant_pool: if cp_info@.is_wide() {
                    old(self)@.constant_pool.push(cp_info@).push(CpInfoView::unusable())
                } else {
                    old(self)@.constant_pool.push(cp_info@)
                },
                ..old(self)@
            }),
    {
        self.constant_pool.push(cp_info);
    }

    /// The number of slots in the pool.
    pub fn get_constant_pool_size(&self) -> (n: usize)
        ensures
            n == self@.constant_pool.len(),
    {
        self.constant_pool.len()
    }

    /// The pool entry at the 1-based `index`. There is none at index 0,
    /// past the last slot, or on the slot after a `Long` or `Double`.
    pub fn get_constant_pool_entry(&self, index: usize) -> (r: Option<&CpInfo>)
        ensures
            match spec_lookup(self@.constant_pool, index as int) {
                Some(slot) => r matches Some(e) && e@ == slot,
                None => r is None,
            },
    {
        self.constant_pool.get(index)
    }
}

} // verus!
