//! The frames of a `StackMapTable` and the verification types in them.
use vstd::prelude::*;

use crate::cursor::{be16, fits, spec_u16, spec_u8, views, Cursor, Decoded};
use crate::error::DecompileError;
use crate::table::{lemma_many_forward, lemma_many_len, read_table, spec_table, Decode};

verus! {

/// The type of one local variable or operand stack slot.
#[derive(Debug, Clone, Copy, PartialEq, Eq)]
pub enum VerificationTypeInfo {
    Top,
    Integer,
    Float,
    Double,
    Long,
    Null,
    UninitializedThis,
    /// An instance of the class at `cpool_index`.
    Object { cpool_index: u16 },
    /// An object created by the `new` at code offset `offset` and not yet
    /// initialized.
    Uninitialized { offset: u16 },
}

impl View for VerificationTypeInfo {
    type V = VerificationTypeInfo;

    open spec fn view(&self) -> VerificationTypeInfo {
        *self
    }
}

impl Decode for VerificationTypeInfo {
    open spec fn spec_decode(b: Seq<u8>, pos: int, end: int) -> Decoded<VerificationTypeInfo> {
        match spec_u8(b, pos, end) {
            Err(e) => Err(e),
            Ok((tag, p)) => if tag == 0 {
                Ok((VerificationTypeInfo::Top, p))
            } else if tag == 1 {
                Ok((VerificationTypeInfo::Integer, p))
            } else if tag == 2 {
                Ok((VerificationTypeInfo::Float, p))
            } else if tag == 3 {
                Ok((VerificationTypeInfo::Double, p))
            } else if tag == 4 {
                Ok((VerificationTypeInfo::Long, p))
            } else if tag == 5 {
                Ok((VerificationTypeInfo::Null, p))
            } else if tag == 6 {
                Ok((VerificationTypeInfo::UninitializedThis, p))
            } else if tag == 7 {
                match spec_u16(b, p, end) {
                    Err(e) => Err(e),
                    Ok((cpool_index, q)) => Ok((VerificationTypeInfo::Object { cpool_index }, q)),
                }
            } else if tag == 8 {
                match spec_u16(b, p, end) {
                    Err(e) => Err(e),
                    Ok((offset, q)) => Ok((VerificationTypeInfo::Uninitialized { offset }, q)),
                }
            } else {
                Err(DecompileError::InvalidAttributeTag(tag, pos as u64))
            },
        }
    }

    proof fn lemma_forward(b: Seq<u8>, pos: int, end: int) {
    }

    open spec fn counted(v: VerificationTypeInfo) -> bool {
        true
    }

    proof fn lemma_counted(b: Seq<u8>, pos: int, end: int) {
    }

    fn decode(cur: &mut Cursor) -> (r: Result<VerificationTypeInfo, DecompileError>) {
        let at = cur.position();
        let tag = cur.read_u8()?;
        match tag {
            0 => Ok(VerificationTypeInfo::Top),
            1 => Ok(VerificationTypeInfo::Integer),
            2 => Ok(VerificationTypeInfo::Float),
            3 => Ok(VerificationTypeInfo::Double),
            4 => Ok(VerificationTypeInfo::Long),
            5 => Ok(VerificationTypeInfo::Null),
            6 => Ok(VerificationTypeInfo::UninitializedThis),
            7 => {
                let cpool_index = cur.read_u16()?;
                Ok(VerificationTypeInfo::Object { cpool_index })
            },
            8 => {
                let offset = cur.read_u16()?;
                Ok(VerificationTypeInfo::Uninitialized { offset })
            },
            _ => Err(DecompileError::InvalidAttributeTag(tag, at)),
        }
    }
}

/// One frame of a `StackMapTable`. The frame type byte selects the shape;
/// where a range of types shares a shape, the byte is kept.
#[derive(Debug, PartialEq, Eq)]
#[allow(inconsistent_fields)]
pub enum StackMapFrame {
    /// Types 0 to 63: same locals, empty stack.
    SameFrame { frame_type: u8 },
    /// Types 64 to 127: same locals, one stack item.
    SameLocals1StackItemFrame { frame_type: u8, stack: VerificationTypeInfo },
    /// Type 247: as above, with an explicit offset.
    SameLocals1StackItemFrameExtended { offset_delta: u16, stack: VerificationTypeInfo },
    /// Types 248 to 250: the last `251 - frame_type` locals are gone.
    ChopFrame { frame_type: u8, offset_delta: u16 },
    /// Type 251: same locals, empty stack, explicit offset.
    SameFrameExtended { offset_delta: u16 },
    /// Types 252 to 254: `frame_type - 251` more locals.
    AppendFrame { frame_type: u8, offset_delta: u16, locals: Vec<VerificationTypeInfo> },
    /// Type 255: all locals and the whole stack.
    FullFrame {
        offset_delta: u16,
        number_of_locals: u16,
        locals: Vec<VerificationTypeInfo>,
        number_of_stack_items: u16,
        stack: Vec<VerificationTypeInfo>,
    },
}

/// The mathematical value of a `StackMapFrame`.
#[allow(inconsistent_fields)]
pub enum StackMapFrameView {
    SameFrame { frame_type: u8 },
    SameLocals1StackItemFrame { frame_type: u8, stack: VerificationTypeInfo },
    SameLocals1StackItemFrameExtended { offset_delta: u16, stack: VerificationTypeInfo },
    ChopFrame { frame_type: u8, offset_delta: u16 },
    SameFrameExtended { offset_delta: u16 },
    AppendFrame { frame_type: u8, offset_delta: u16, locals: Seq<VerificationTypeInfo> },
    FullFrame {
        offset_delta: u16,
        number_of_locals: u16,
        locals: Seq<VerificationTypeInfo>,
        number_of_stack_items: u16,
        stack: Seq<VerificationTypeInfo>,
    },
}

impl View for StackMapFrame {
    type V = StackMapFrameView;

    open spec fn view(&self) -> StackMapFrameView {
        match *self {
            StackMapFrame::SameFrame { frame_type } => StackMapFrameView::SameFrame { frame_type },
            StackMapFrame::SameLocals1StackItemFrame {
                frame_type,
                stack,
            } => StackMapFrameView::SameLocals1StackItemFrame { frame_type, stack },
            StackMapFrame::SameLocals1StackItemFrameExtended {
                offset_delta,
                stack,
            } => StackMapFrameView::SameLocals1StackItemFrameExtended { offset_delta, stack },
            StackMapFrame::ChopFrame { frame_type, offset_delta } => StackMapFrameView::ChopFrame {
                frame_type,
                offset_delta,
            },
            StackMapFrame::SameFrameExtended { offset_delta } => StackMapFrameView::SameFrameExtended {
                offset_delta,
            },
            StackMapFrame::AppendFrame {
                frame_type,
                offset_delta,
                locals,
            } => StackMapFrameView::AppendFrame { frame_type, offset_delta, locals: locals@ },
            StackMapFrame::FullFrame {
                offset_delta,
                number_of_locals,
                locals,
                number_of_stack_items,
                stack,
            } => StackMapFrameView::FullFrame {
                offset_delta,
                number_of_locals,
                locals: locals@,
                number_of_stack_items,
                stack: stack@,
            },
        }
    }
}

/// The body of a full frame, after its type byte.
pub open spec fn spec_full_frame(b: Seq<u8>, pos: int, end: int) -> Decoded<StackMapFrameView> {
    match spec_u16(b, pos, end) {
        Err(e) => Err(e),
        Ok((offset_delta, p1)) => match spec_u16(b, p1, end) {
            Err(e) => Err(e),
            Ok((number_of_locals, p2)) => match spec_table::<VerificationTypeInfo>(
                b,
                p2,
                end,
                number_of_locals as nat,
            ) {
                Err(e) => Err(e),
                Ok((locals, p3)) => match spec_u16(b, p3, end) {
                    Err(e) => Err(e),
                    Ok((number_of_stack_items, p4)) => match spec_table::<VerificationTypeInfo>(
                        b,
                        p4,
                        end,
                        number_of_stack_items as nat,
                    ) {
                        Err(e) => Err(e),
                        Ok((stack, p5)) => Ok(
                            (
                                StackMapFrameView::FullFrame {
                                    offset_delta,
                                    number_of_locals,
                                    locals,
                                    number_of_stack_items,
                                    stack,
                                },
                                p5,
                            ),
                        ),
                    },
                },
            },
        },
    }
}

/// The body of a frame of type `t` in 247 to 254, after its type byte: an
/// offset, then what the type asks for.
pub open spec fn spec_offset_frame(b: Seq<u8>, pos: int, end: int, t: u8) -> Decoded<StackMapFrameView>
    recommends
        247 <= t <= 254,
{
    match spec_u16(b, pos, end) {
        Err(e) => Err(e),
        Ok((offset_delta, p)) => if t == 247 {
            match VerificationTypeInfo::spec_decode(b, p, end) {
                Err(e) => Err(e),
                Ok((stack, q)) => Ok(
                    (StackMapFrameView::SameLocals1StackItemFrameExtended { offset_delta, stack }, q),
                ),
            }
        } else if t <= 250 {
            Ok((StackMapFrameView::ChopFrame { frame_type: t, offset_delta }, p))
        } else if t == 251 {
            Ok((StackMapFrameView::SameFrameExtended { offset_delta }, p))
        } else {
            match spec_table::<VerificationTypeInfo>(b, p, end, (t - 251) as nat) {
                Err(e) => Err(e),
                Ok((locals, q)) => Ok(
                    (StackMapFrameView::AppendFrame { frame_type: t, offset_delta, locals }, q),
                ),
            }
        },
    }
}

/// Decodes a table of verification types.
fn read_types(cur: &mut Cursor, n: usize) -> (r: Result<Vec<VerificationTypeInfo>, DecompileError>)
    requires
        old(cur).inv(),
    ensures
        final(cur).same_window(*old(cur)),
        match spec_table::<VerificationTypeInfo>(
            old(cur).bytes@,
            old(cur).pos as int,
            old(cur).end as int,
            n as nat,
        ) {
            Ok((v, p)) => r matches Ok(x) && x@ == v && final(cur).pos == p,
            Err(e) => r matches Err(g) && g == e,
        },
        r is Ok ==> old(cur).pos <= final(cur).pos,
{
    let r = read_table::<VerificationTypeInfo>(cur, n);
    proof {
        if r is Ok {
            assert(views(r->Ok_0@) =~= r->Ok_0@);
        }
    }
    r
}

impl Decode for StackMapFrame {
    open spec fn spec_decode(b: Seq<u8>, pos: int, end: int) -> Decoded<StackMapFrameView> {
        match spec_u8(b, pos, end) {
            Err(e) => Err(e),
            Ok((t, p)) => if t <= 63 {
                Ok((StackMapFrameView::SameFrame { frame_type: t }, p))
            } else if t <= 127 {
                match VerificationTypeInfo::spec_decode(b, p, end) {
                    Err(e) => Err(e),
                    Ok((stack, q)) => Ok(
                        (StackMapFrameView::SameLocals1StackItemFrame { frame_type: t, stack }, q),
                    ),
                }
            } else if t <= 246 {
                Err(DecompileError::InvalidAttributeTag(t, pos as u64))
            } else if t <= 254 {
                spec_offset_frame(b, p, end, t)
            } else {
                spec_full_frame(b, p, end)
            },
        }
    }

    proof fn lemma_forward(b: Seq<u8>, pos: int, end: int) {
        if pos < end {
            let t = b[pos];
            VerificationTypeInfo::lemma_forward(b, pos + 1, end);
            if pos + 3 <= end {
                VerificationTypeInfo::lemma_forward(b, pos + 3, end);
                lemma_many_forward::<VerificationTypeInfo>(b, pos + 3, end, (t - 251) as nat, Seq::empty());
            }
            if pos + 5 <= end {
                lemma_many_forward::<VerificationTypeInfo>(
                    b,
                    pos + 5,
                    end,
                    be16(b, pos + 3) as nat,
                    Seq::empty(),
                );
                match spec_table::<VerificationTypeInfo>(b, pos + 5, end, be16(b, pos + 3) as nat) {
                    Ok((locals, p3)) => {
                        if p3 + 2 <= end {
                            lemma_many_forward::<VerificationTypeInfo>(
                                b,
                                p3 + 2,
                                end,
                                be16(b, p3) as nat,
                                Seq::empty(),
                            );
                        }
                    },
                    Err(e) => {},
                }
            }
        }
    }

    open spec fn counted(v: StackMapFrameView) -> bool {
        match v {
            StackMapFrameView::AppendFrame { frame_type, locals, .. } => locals.len() == frame_type - 251,
            StackMapFrameView::FullFrame {
                number_of_locals,
                locals,
                number_of_stack_items,
                stack,
                ..
            } => locals.len() == number_of_locals && stack.len() == number_of_stack_items,
            _ => true,
        }
    }

    proof fn lemma_counted(b: Seq<u8>, pos: int, end: int) {
        if fits(pos, end, 1) {
            let t = b[pos];
            if fits(pos + 1, end, 2) {
                lemma_many_len::<VerificationTypeInfo>(b, pos + 3, end, (t - 251) as nat, Seq::empty());
            }
            if fits(pos + 1, end, 4) {
                lemma_many_len::<VerificationTypeInfo>(
                    b,
                    pos + 5,
                    end,
                    be16(b, pos + 3) as nat,
                    Seq::empty(),
                );
                match spec_table::<VerificationTypeInfo>(b, pos + 5, end, be16(b, pos + 3) as nat) {
                    Ok((locals, p3)) => {
                        if fits(p3, end, 2) {
                            lemma_many_len::<VerificationTypeInfo>(
                                b,
                                p3 + 2,
                                end,
                                be16(b, p3) as nat,
                                Seq::empty(),
                            );
                        }
                    },
                    Err(e) => {},
                }
            }
        }
    }

    fn decode(cur: &mut Cursor) -> (r: Result<StackMapFrame, DecompileError>) {
        let at = cur.position();
        let t = cur.read_u8()?;
        if t <= 63 {
            Ok(StackMapFrame::SameFrame { frame_type: t })
        } else if t <= 127 {
            let stack = VerificationTypeInfo::decode(cur)?;
            Ok(StackMapFrame::SameLocals1StackItemFrame { frame_type: t, stack })
        } else if t <= 246 {
            Err(DecompileError::InvalidAttributeTag(t, at))
        } else if t <= 254 {
            let offset_delta = cur.read_u16()?;
            if t == 247 {
                let stack = VerificationTypeInfo::decode(cur)?;
                Ok(StackMapFrame::SameLocals1StackItemFrameExtended { offset_delta, stack })
            } else if t <= 250 {
                Ok(StackMapFrame::ChopFrame { frame_type: t, offset_delta })
            } else if t == 251 {
                Ok(StackMapFrame::SameFrameExtended { offset_delta })
            } else {
                let locals = read_types(cur, (t - 251) as usize)?;
                Ok(StackMapFrame::AppendFrame { frame_type: t, offset_delta, locals })
            }
        } else {
            let offset_delta = cur.read_u16()?;
            let number_of_locals = cur.read_u16()?;
            let locals = read_types(cur, number_of_locals as usize)?;
            let number_of_stack_items = cur.read_u16()?;
            let stack = read_types(cur, number_of_stack_items as usize)?;
            Ok(
                StackMapFrame::FullFrame {
                    offset_delta,
                    number_of_locals,
                    locals,
                    number_of_stack_items,
                    stack,
                },
            )
        }
    }
}

} // verus!
