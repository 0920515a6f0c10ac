//! Rendering numbers and the constant pool as text, for diagnostics.
use vstd::prelude::*;
use vstd::string::StringExecFns;

use crate::pool::{ConstantPool, ConstantPoolType, ConstantPoolTypeView, CpInfo, CpInfoView};

verus! {

/// The character of the digit `d`, in lower case from ten on.
pub open spec fn digit(d: int) -> Seq<char> {
    if d == 0 {
        "0"@
    } else if d == 1 {
        "1"@
    } else if d == 2 {
        "2"@
    } else if d == 3 {
        "3"@
    } else if d == 4 {
        "4"@
    } else if d == 5 {
        "5"@
    } else if d == 6 {
        "6"@
    } else if d == 7 {
        "7"@
    } else if d == 8 {
        "8"@
    } else if d == 9 {
        "9"@
    } else if d == 10 {
        "a"@
    } else if d == 11 {
        "b"@
    } else if d == 12 {
        "c"@
    } else if d == 13 {
        "d"@
    } else if d == 14 {
        "e"@
    } else {
        "f"@
    }
}

/// `n` in decimal, most significant digit first, without leading zeros; a
/// single `0` for zero.
pub open spec fn decimal(n: nat) -> Seq<char>
    decreases n,
{
    if n < 10 {
        digit(n as int)
    } else {
        decimal(n / 10) + digit((n % 10) as int)
    }
}

/// `n` in lower-case hexadecimal, without a prefix or leading zeros.
pub open spec fn hexadecimal(n: nat) -> Seq<char>
    decreases n,
{
    if n < 16 {
        digit(n as int)
    } else {
        hexadecimal(n / 16) + digit((n % 16) as int)
    }
}

/// `v` in decimal, with a minus sign when it is negative.
pub open spec fn signed_decimal(v: int) -> Seq<char> {
    if v < 0 {
        "-"@ + decimal((-v) as nat)
    } else {
        decimal(v as nat)
    }
}

/// `n` in decimal, with a leading zero when it has one digit.
pub open spec fn two_digits(n: nat) -> Seq<char> {
    if n < 10 {
        "0"@ + decimal(n)
    } else {
        decimal(n)
    }
}

/// The text of one digit.
fn digit_text(d: u8) -> (s: &'static str)
    requires
        d < 16,
    ensures
        s@ == digit(d as int),
{
    match d {
        0 => "0",
        1 => "1",
        2 => "2",
        3 => "3",
        4 => "4",
        5 => "5",
        6 => "6",
        7 => "7",
        8 => "8",
        9 => "9",
        10 => "a",
        11 => "b",
        12 => "c",
        13 => "d",
        14 => "e",
        _ => "f",
    }
}

/// Appends `n` in decimal to `out`.
pub fn push_decimal(out: &mut String, n: u64)
    ensures
        final(out)@ == old(out)@ + decimal(n as nat),
    decreases n,
{
    if n >= 10 {
        push_decimal(out, n / 10);
    }
    out.append(digit_text((n % 10) as u8));
    assert(out@ =~= old(out)@ + decimal(n as nat));
}

/// Appends `n` in lower-case hexadecimal to `out`.
pub fn push_hexadecimal(out: &mut String, n: u64)
    ensures
        final(out)@ == old(out)@ + hexadecimal(n as nat),
    decreases n,
{
    if n >= 16 {
        push_hexadecimal(out, n / 16);
    }
    out.append(digit_text((n % 16) as u8));
    assert(out@ =~= old(out)@ + hexadecimal(n as nat));
}

/// Appends `v` in decimal to `out`, with a minus sign when negative.
pub fn push_signed(out: &mut String, v: i64)
    ensures
        final(out)@ == old(out)@ + signed_decimal(v as int),
{
    if v < 0 {
        out.append("-");
        let magnitude: u64 = ((-(v + 1)) as u64) + 1;
        push_decimal(out, magnitude);
        assert(out@ =~= old(out)@ + ("-"@ + decimal((-v) as nat)));
    } else {
        push_decimal(out, v as u64);
    }
}

/// Appends `n` in decimal to `out`, in at least two digits.
pub fn push_two_digits(out: &mut String, n: u64)
    ensures
        final(out)@ == old(out)@ + two_digits(n as nat),
{
    if n < 10 {
        out.append("0");
        push_decimal(out, n);
        assert(out@ =~= old(out)@ + ("0"@ + decimal(n as nat)));
    } else {
        push_decimal(out, n);
    }
}

/// The text of a pool entry: the name of its kind, then its fields. A
/// `Float` or `Double` shows its bit pattern in hexadecimal.
pub open spec fn render_entry(e: ConstantPoolTypeView) -> Seq<char> {
    match e {
        ConstantPoolTypeView::ConstantClass { name_idx } => "Class: ("@
            + decimal(name_idx as nat)
            + ")"@,
        ConstantPoolTypeView::ConstantFieldRef { class_index, name_and_type_idx } => "FieldRef: class("@
            + decimal(class_index as nat)
            + ") name_and_type("@
            + decimal(name_and_type_idx as nat)
            + ")"@,
        ConstantPoolTypeView::ConstantMethodRef { class_index, name_and_type_idx } => "MethodRef: class("@
            + decimal(class_index as nat)
            + ") name_and_type("@
            + decimal(name_and_type_idx as nat)
            + ")"@,
        ConstantPoolTypeView::ConstantInterfaceMethodRef {
            class_index,
            name_and_type_idx,
        } => "InterfaceMethodRef: class("@
            + decimal(class_index as nat)
            + ") name_and_type("@
            + decimal(name_and_type_idx as nat)
            + ")"@,
        ConstantPoolTypeView::ConstantString { string_idx } => "String: ("@
            + decimal(string_idx as nat)
            + ")"@,
        ConstantPoolTypeView::ConstantInteger { value } => "Integer: "@
            + signed_decimal(value as int),
        ConstantPoolTypeView::ConstantFloat { bits } => "Float: 0x"@ + hexadecimal(bits as nat),
        ConstantPoolTypeView::ConstantLong { value } => "Long: "@ + signed_decimal(value as int),
        ConstantPoolTypeView::ConstantDouble { bits } => "Double: 0x"@ + hexadecimal(bits as nat),
        ConstantPoolTypeView::ConstantNameAndType { name_idx, desc_idx } => "NameAndType: name("@
            + decimal(name_idx as nat)
            + ") desc("@
            + decimal(desc_idx as nat)
            + ")"@,
        ConstantPoolTypeView::ConstantUtf8 { len, value } => "Utf8: len("@
            + decimal(len as nat)
            + ") value(\""@
            + value
            + "\")"@,
        ConstantPoolTypeView::ConstantMethodHandle { ref_kind, ref_idx } => "MethodHandle: ref_kind("@
            + decimal(ref_kind as nat)
            + ") ref_idx("@
            + decimal(ref_idx as nat)
            + ")"@,
        ConstantPoolTypeView::ConstantMethodType { desc_idx } => "MethodType: desc("@
            + decimal(desc_idx as nat)
            + ")"@,
        ConstantPoolTypeView::ConstantDynamic {
            bootstrap_method_attr_index,
            name_and_type_index,
        } => "Dynamic: bootstrap_method_attr("@
            + decimal(bootstrap_method_attr_index as nat)
            + ") name_and_type("@
            + decimal(name_and_type_index as nat)
            + ")"@,
        ConstantPoolTypeView::ConstantInvokeDynamic {
            bootstrap_method_attr_index,
            name_and_type_index,
        } => "InvokeDynamic: bootstrap_method_attr("@
            + decimal(bootstrap_method_attr_index as nat)
            + ") name_and_type("@
            + decimal(name_and_type_index as nat)
            + ")"@,
        ConstantPoolTypeView::ConstantModule { name_idx } => "Module: ("@
            + decimal(name_idx as nat)
            + ")"@,
        ConstantPoolTypeView::ConstantPackage { name_idx } => "Package: ("@
            + decimal(name_idx as nat)
            + ")"@,
    }
}

/// The text of a slot: its tag in two digits, then its entry, or `None`
/// for a slot without one.
pub open spec fn render_slot(s: CpInfoView) -> Seq<char> {
    "tag: "@ + two_digits(s.tag as nat) + " info: { "@ + (match s.info {
        Some(e) => render_entry(e),
        None => "None"@,
    }) + " }"@
}

/// The text of the first `n` slots of a pool, one line for each, numbered
/// from 1.
pub open spec fn render_slots(slots: Seq<CpInfoView>, n: nat) -> Seq<char>
    recommends
        n <= slots.len(),
    decreases n,
{
    if n == 0 {
        Seq::empty()
    } else {
        render_slots(slots, (n - 1) as nat) + "idx: "@ + two_digits(n) + " entry: { "@ + render_slot(
            slots[n - 1],
        ) + " }\n"@
    }
}

/// The text of a pool: one line for each slot.
pub open spec fn render_pool(slots: Seq<CpInfoView>) -> Seq<char> {
    render_slots(slots, slots.len())
}

/// Appends the text of a pool entry to `out`.
pub fn push_entry(out: &mut String, e: &ConstantPoolType)
    ensures
        final(out)@ == old(out)@ + render_entry(e@),
{
    match e {
        ConstantPoolType::ConstantClass { name_idx } => {
            out.append("Class: (");
            push_decimal(out, *name_idx as u64);
            out.append(")");
        },
        ConstantPoolType::ConstantFieldRef { class_index, name_and_type_idx } => {
            out.append("FieldRef: class(");
            push_decimal(out, *class_index as u64);
            out.append(") name_and_type(");
            push_decimal(out, *name_and_type_idx as u64);
            out.append(")");
        },
        ConstantPoolType::ConstantMethodRef { class_index, name_and_type_idx } => {
            out.append("MethodRef: class(");
            push_decimal(out, *class_index as u64);
            out.append(") name_and_type(");
            push_decimal(out, *name_and_type_idx as u64);
            out.append(")");
        },
        ConstantPoolType::ConstantInterfaceMethodRef { class_index, name_and_type_idx } => {
            out.append("InterfaceMethodRef: class(");
            push_decimal(out, *class_index as u64);
            out.append(") name_and_type(");
            push_decimal(out, *name_and_type_idx as u64);
            out.append(")");
        },
        ConstantPoolType::ConstantString { string_idx } => {
            out.append("String: (");
            push_decimal(out, *string_idx as u64);
            out.append(")");
        },
        ConstantPoolType::ConstantInteger { value } => {
            out.append("Integer: ");
            push_signed(out, *value as i64);
        },
        ConstantPoolType::ConstantFloat { bits } => {
            out.append("Float: 0x");
            push_hexadecimal(out, *bits as u64);
        },
        ConstantPoolType::ConstantLong { value } => {
            out.append("Long: ");
            push_signed(out, *value as i64);
        },
        ConstantPoolType::ConstantDouble { bits } => {
            out.append("Double: 0x");
            push_hexadecimal(out, *bits as u64);
        },
        ConstantPoolType::ConstantNameAndType { name_idx, desc_idx } => {
            out.append("NameAndType: name(");
            push_decimal(out, *name_idx as u64);
            out.append(") desc(");
            push_decimal(out, *desc_idx as u64);
            out.append(")");
        },
        ConstantPoolType::ConstantUtf8 { len, value } => {
            out.append("Utf8: len(");
            push_decimal(out, *len as u64);
            out.append(") value(\"");
            out.append(value.as_str());
            out.append("\")");
        },
        ConstantPoolType::ConstantMethodHandle { ref_kind, ref_idx } => {
            out.append("MethodHandle: ref_kind(");
            push_decimal(out, *ref_kind as u64);
            out.append(") ref_idx(");
            push_decimal(out, *ref_idx as u64);
            out.append(")");
        },
        ConstantPoolType::ConstantMethodType { desc_idx } => {
            out.append("MethodType: desc(");
            push_decimal(out, *desc_idx as u64);
            out.append(")");
        },
        ConstantPoolType::ConstantDynamic { bootstrap_method_attr_index, name_and_type_index } => {
            out.append("Dynamic: bootstrap_method_attr(");
            push_decimal(out, *bootstrap_method_attr_index as u64);
            out.append(") name_and_type(");
            push_decimal(out, *name_and_type_index as u64);
            out.append(")");
        },
        ConstantPoolType::ConstantInvokeDynamic {
            bootstrap_method_attr_index,
            name_and_type_index,
        } => {
            out.append("InvokeDynamic: bootstrap_method_attr(");
            push_decimal(out, *bootstrap_method_attr_index as u64);
            out.append(") name_and_type(");
            push_decimal(out, *name_and_type_index as u64);
            out.append(")");
        },
        ConstantPoolType::ConstantModule { name_idx } => {
            out.append("Module: (");
            push_decimal(out, *name_idx as u64);
            out.append(")");
        },
        ConstantPoolType::ConstantPackage { name_idx } => {
            out.append("Package: (");
            push_decimal(out, *name_idx as u64);
            out.append(")");
        },
    }
    assert(out@ =~= old(out)@ + render_entry(e@));
}

/// Appends the text of a slot to `out`.
pub fn push_slot(out: &mut String, s: &CpInfo)
    ensures
        final(out)@ == old(out)@ + render_slot(s@),
{
    out.append("tag: ");
    push_two_digits(out, s.tag as u64);
    out.append(" info: { ");
    match &s.info {
        Some(e) => push_entry(out, e),
        None => out.append("None"),
    }
    out.append(" }");
    assert(out@ =~= old(out)@ + render_slot(s@));
}

/// Appends the text of a pool to `out`.
pub fn push_pool(out: &mut String, pool: &ConstantPool)
    ensures
        final(out)@ == old(out)@ + render_pool(pool@),
{
    let n = pool.len();
    let mut i: usize = 0;
    assert(out@ =~= old(out)@ + render_slots(pool@, 0));
    while i < n
        invariant
            i <= n,
            n == pool@.len(),
            out@ == old(out)@ + render_slots(pool@, i as nat),
        decreases n - i,
    {
        let ghost before = out@;
        out.append("idx: ");
        push_two_digits(out, (i + 1) as u64);
        out.append(" entry: { ");
        push_slot(out, pool.slot(i));
        out.append(" }\n");
        assert(out@ =~= old(out)@ + render_slots(pool@, (i + 1) as nat));
        i = i + 1;
    }
}

impl ConstantPoolType {
    /// The entry as text.
    pub fn render(&self) -> (text: String)
        ensures
            text@ == render_entry(self@),
    {
        let mut out = String::new();
        push_entry(&mut out, self);
        assert(out@ =~= render_entry(self@));
        out
    }
}

impl CpInfo {
    /// The slot as text.
    pub fn render(&self) -> (text: String)
        ensures
            text@ == render_slot(self@),
    {
        let mut out = String::new();
        push_slot(&mut out, self);
        assert(out@ =~= render_slot(self@));
        out
    }
}

impl ConstantPool {
    /// The pool as text, one line for each slot.
    pub fn render(&self) -> (text: String)
        ensures
            text@ == render_pool(self@),
    {
        let mut out = String::new();
        push_pool(&mut out, self);
        assert(out@ =~= render_pool(self@));
        out
    }
}

} // verus!
