//! Rows that end in a counted list of pool indices: a few fixed fields, the
//! count as the last of them, then that many `u16` indices.
use vstd::prelude::*;

use crate::cursor::{be16, eof, fits, Cursor, Decoded};
use crate::error::DecompileError;
use crate::table::{lemma_many_forward, lemma_many_len, read_u16_table, spec_table, Decode};

verus! {

/// One row of a `BootstrapMethods` attribute: a method handle and the pool
/// indices of its static arguments.
#[derive(Debug, PartialEq, Eq)]
pub struct BootstrapMethod {
    pub bootstrap_method_ref: u16,
    pub num_bootstrap_arguments: u16,
    pub bootstrap_arguments: Vec<u16>,
}

/// The mathematical value of a `BootstrapMethod`.
pub struct BootstrapMethodView {
    pub bootstrap_method_ref: u16,
    pub num_bootstrap_arguments: u16,
    pub bootstrap_arguments: Seq<u16>,
}

impl View for BootstrapMethod {
    type V = BootstrapMethodView;

    open spec fn view(&self) -> BootstrapMethodView {
        BootstrapMethodView {
            bootstrap_method_ref: self.bootstrap_method_ref,
            num_bootstrap_arguments: self.num_bootstrap_arguments,
            bootstrap_arguments: self.bootstrap_arguments@,
        }
    }
}

impl Decode for BootstrapMethod {
    open spec fn spec_decode(b: Seq<u8>, pos: int, end: int) -> Decoded<BootstrapMethodView> {
        if !fits(pos, end, 4) {
            Err(eof(pos))
        } else {
            match spec_table::<u16>(b, pos + 4, end, be16(b, pos + 2) as nat) {
                Err(e) => Err(e),
                Ok((list, p)) => Ok(
                    (
                        BootstrapMethodView {
                            bootstrap_method_ref: be16(b, pos),
                            num_bootstrap_arguments: be16(b, pos + 2),
                            bootstrap_arguments: list,
                        },
                        p,
                    ),
                ),
            }
        }
    }

    proof fn lemma_forward(b: Seq<u8>, pos: int, end: int) {
        if fits(pos, end, 4) {
            lemma_many_forward::<u16>(
                b,
                pos + 4,
                end,
                be16(b, pos + 2) as nat,
                Seq::empty(),
            );
        }
    }

    open spec fn counted(v: BootstrapMethodView) -> bool {
        v.bootstrap_arguments.len() == v.num_bootstrap_arguments
    }

    proof fn lemma_counted(b: Seq<u8>, pos: int, end: int) {
        lemma_many_len::<u16>(b, pos + 4, end, be16(b, pos + 2) as nat, Seq::empty());
    }

    fn decode(cur: &mut Cursor) -> (r: Result<BootstrapMethod, DecompileError>) {
        cur.need(4)?;
        let bootstrap_method_ref = cur.take_u16();
        let num_bootstrap_arguments = cur.take_u16();
        let bootstrap_arguments = read_u16_table(cur, num_bootstrap_arguments as usize)?;
        Ok(BootstrapMethod { bootstrap_method_ref, num_bootstrap_arguments, bootstrap_arguments })
    }
}

/// One `exports` row of a `Module` attribute: a package and the modules it
/// is exported to.
#[derive(Debug, PartialEq, Eq)]
pub struct ModuleExport {
    pub exports_index: u16,
    pub exports_flags: u16,
    pub exports_to_count: u16,
    pub exports_to_index: Vec<u16>,
}

/// The mathematical value of a `ModuleExport`.
pub struct ModuleExportView {
    pub exports_index: u16,
    pub exports_flags: u16,
    pub exports_to_count: u16,
    pub exports_to_index: Seq<u16>,
}

impl View for ModuleExport {
    type V = ModuleExportView;

    open spec fn view(&self) -> ModuleExportView {
        ModuleExportView {
            exports_index: self.exports_index,
            exports_flags: self.exports_flags,
            exports_to_count: self.exports_to_count,
            exports_to_index: self.exports_to_index@,
        }
    }
}

impl Decode for ModuleExport {
    open spec fn spec_decode(b: Seq<u8>, pos: int, end: int) -> Decoded<ModuleExportView> {
        if !fits(pos, end, 6) {
            Err(eof(pos))
        } else {
            match spec_table::<u16>(b, pos + 6, end, be16(b, pos + 4) as nat) {
                Err(e) => Err(e),
                Ok((list, p)) => Ok(
                    (
                        ModuleExportView {
                            exports_index: be16(b, pos),
                            exports_flags: be16(b, pos + 2),
                            exports_to_count: be16(b, pos + 4),
                            exports_to_index: list,
                        },
                        p,
                    ),
                ),
            }
        }
    }

    proof fn lemma_forward(b: Seq<u8>, pos: int, end: int) {
        if fits(pos, end, 6) {
            lemma_many_forward::<u16>(
                b,
                pos + 6,
                end,
                be16(b, pos + 4) as nat,
                Seq::empty(),
            );
        }
    }

    open spec fn counted(v: ModuleExportView) -> bool {
        v.exports_to_index.len() == v.exports_to_count
    }

    proof fn lemma_counted(b: Seq<u8>, pos: int, end: int) {
        lemma_many_len::<u16>(b, pos + 6, end, be16(b, pos + 4) as nat, Seq::empty());
    }

    fn decode(cur: &mut Cursor) -> (r: Result<ModuleExport, DecompileError>) {
        cur.need(6)?;
        let exports_index = cur.take_u16();
        let exports_flags = cur.take_u16();
        let exports_to_count = cur.take_u16();
        let exports_to_index = read_u16_table(cur, exports_to_count as usize)?;
        Ok(ModuleExport { exports_index, exports_flags, exports_to_count, exports_to_index })
    }
}

/// One `opens` row of a `Module` attribute: a package and the modules it is
/// opened to.
#[derive(Debug, PartialEq, Eq)]
pub struct ModuleOpens {
    pub opens_index: u16,
    pub opens_flags: u16,
    pub opens_to_count: u16,
    pub opens_to_index: Vec<u16>,
}

/// The mathematical value of a `ModuleOpens`.
pub struct ModuleOpensView {
    pub opens_index: u16,
    pub opens_flags: u16,
    pub opens_to_count: u16,
    pub opens_to_index: Seq<u16>,
}

impl View for ModuleOpens {
    type V = ModuleOpensView;

    open spec fn view(&self) -> ModuleOpensView {
        ModuleOpensView {
            opens_index: self.opens_index,
            opens_flags: self.opens_flags,
            opens_to_count: self.opens_to_count,
            opens_to_index: self.opens_to_index@,
        }
    }
}

impl Decode for ModuleOpens {
    open spec fn spec_decode(b: Seq<u8>, pos: int, end: int) -> Decoded<ModuleOpensView> {
        if !fits(pos, end, 6) {
            Err(eof(pos))
        } else {
            match spec_table::<u16>(b, pos + 6, end, be16(b, pos + 4) as nat) {
                Err(e) => Err(e),
                Ok((list, p)) => Ok(
                    (
                        ModuleOpensView {
                            opens_index: be16(b, pos),
                            opens_flags: be16(b, pos + 2),
                            opens_to_count: be16(b, pos + 4),
                            opens_to_index: list,
                        },
                        p,
                    ),
                ),
            }
        }
    }

    proof fn lemma_forward(b: Seq<u8>, pos: int, end: int) {
        if fits(pos, end, 6) {
            lemma_many_forward::<u16>(
                b,
                pos + 6,
                end,
                be16(b, pos + 4) as nat,
                Seq::empty(),
            );
        }
    }

    open spec fn counted(v: ModuleOpensView) -> bool {
        v.opens_to_index.len() == v.opens_to_count
    }

    proof fn lemma_counted(b: Seq<u8>, pos: int, end: int) {
        lemma_many_len::<u16>(b, pos + 6, end, be16(b, pos + 4) as nat, Seq::empty());
    }

    fn decode(cur: &mut Cursor) -> (r: Result<ModuleOpens, DecompileError>) {
        cur.need(6)?;
        let opens_index = cur.take_u16();
        let opens_flags = cur.take_u16();
        let opens_to_count = cur.take_u16();
        let opens_to_index = read_u16_table(cur, opens_to_count as usize)?;
        Ok(ModuleOpens { opens_index, opens_flags, opens_to_count, opens_to_index })
    }
}

/// One `provides` row of a `Module` attribute: a service and the classes
/// that implement it.
#[derive(Debug, PartialEq, Eq)]
pub struct ModuleProvides {
    pub provides_index: u16,
    pub provides_with_count: u16,
    pub provides_with_index: Vec<u16>,
}

/// The mathematical value of a `ModuleProvides`.
pub struct ModuleProvidesView {
    pub provides_index: u16,
    pub provides_with_count: u16,
    pub provides_with_index: Seq<u16>,
}

impl View for ModuleProvides {
    type V = ModuleProvidesView;

    open spec fn view(&self) -> ModuleProvidesView {
        ModuleProvidesView {
            provides_index: self.provides_index,
            provides_with_count: self.provides_with_count,
            provides_with_index: self.provides_with_index@,
        }
    }
}

impl Decode for ModuleProvides {
    open spec fn spec_decode(b: Seq<u8>, pos: int, end: int) -> Decoded<ModuleProvidesView> {
        if !fits(pos, end, 4) {
            Err(eof(pos))
        } else {
            match spec_table::<u16>(b, pos + 4, end, be16(b, pos + 2) as nat) {
                Err(e) => Err(e),
                Ok((list, p)) => Ok(
                    (
                        ModuleProvidesView {
                            provides_index: be16(b, pos),
                            provides_with_count: be16(b, pos + 2),
                            provides_with_index: list,
                        },
                        p,
                    ),
                ),
            }
        }
    }

    proof fn lemma_forward(b: Seq<u8>, pos: int, end: int) {
        if fits(pos, end, 4) {
            lemma_many_forward::<u16>(
                b,
                pos + 4,
                end,
                be16(b, pos + 2) as nat,
                Seq::empty(),
            );
        }
    }

    open spec fn counted(v: ModuleProvidesView) -> bool {
        v.provides_with_index.len() == v.provides_with_count
    }

    proof fn lemma_counted(b: Seq<u8>, pos: int, end: int) {
        lemma_many_len::<u16>(b, pos + 4, end, be16(b, pos + 2) as nat, Seq::empty());
    }

    fn decode(cur: &mut Cursor) -> (r: Result<ModuleProvides, DecompileError>) {
        cur.need(4)?;
        let provides_index = cur.take_u16();
        let provides_with_count = cur.take_u16();
        let provides_with_index = read_u16_table(cur, provides_with_count as usize)?;
        Ok(ModuleProvides { provides_index, provides_with_count, provides_with_index })
    }
}

} // verus!
