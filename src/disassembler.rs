use vstd::prelude::*;
use vstd::string::StringExecFns;
use crate::i8080::flags::StatusFlags;
use crate::i8080::registers::Registers;
use crate::text::{decimal, decimal_text};

verus! {

/// The text tables of a terminal view of the machine, as rows of cells.
pub ghost struct TermView {
    pub mem: Seq<Seq<Seq<char>>>,
    pub inst: Seq<Seq<char>>,
    pub flags: Seq<Seq<Seq<char>>>,
    pub regs: Seq<Seq<Seq<char>>>,
    pub pc: Seq<Seq<Seq<char>>>,
}

/// Number of rows of the memory table.
pub const MEMORY_ROWS: usize = 44;

/// Number of cells in a row of the memory table: the address and 16 bytes.
pub const MEMORY_COLUMNS: usize = 17;

/// "1" for a set flag, "0" for a clear one.
pub open spec fn flag_text(b: bool) -> Seq<char> {
    if b {
        "1"@
    } else {
        "0"@
    }
}

/// The memory table before anything is shown: every cell "00".
pub open spec fn initial_mem() -> Seq<Seq<Seq<char>>> {
    Seq::new(MEMORY_ROWS as nat, |i: int| Seq::new(MEMORY_COLUMNS as nat, |j: int| "00"@))
}

/// The register table before anything is shown: two header rows, each over a
/// row of values, with an empty row between them.
pub open spec fn initial_regs() -> Seq<Seq<Seq<char>>> {
    seq![
        seq!["Accumulator"@, "B"@, "C"@],
        seq!["0"@, "0"@, "0"@],
        seq![""@],
        seq!["D"@, "E"@, "H"@, "L"@],
        seq!["0"@, "0"@, "0"@, "0"@],
    ]
}

/// The flag table before anything is shown.
pub open spec fn initial_flags() -> Seq<Seq<Seq<char>>> {
    seq![
        seq!["Sign"@, "Zero"@, "Carry"@],
        seq!["0"@, "0"@, "0"@],
        seq!["Auxiliary"@, "Parity"@],
        seq!["0"@, "0"@],
    ]
}

/// The PC table before anything is shown.
pub open spec fn initial_pc() -> Seq<Seq<Seq<char>>> {
    seq![seq!["PC"@], seq!["0"@]]
}

/// The text tables of a terminal view: memory, instructions, flags,
/// registers and PC.
pub struct Term {
    mem: Vec<Vec<String>>,
    inst: Vec<String>,
    flags: Vec<Vec<String>>,
    regs: Vec<Vec<String>>,
    pc: Vec<Vec<String>>,
}

impl View for Term {
    type V = TermView;

    closed spec fn view(&self) -> TermView {
        TermView {
            mem: self.mem.deep_view(),
            inst: self.inst.deep_view(),
            flags: self.flags.deep_view(),
            regs: self.regs.deep_view(),
            pc: self.pc.deep_view(),
        }
    }
}

/// A row of cells holding the given texts.
fn text_row(items: Vec<&str>) -> (r: Vec<String>)
    ensures
        r.deep_view() == items.deep_view(),
{
    let mut r: Vec<String> = Vec::new();
    let mut i: usize = 0;
    while i < items.len()
        invariant
            i <= items@.len(),
            r@.len() == i,
            forall|j: int| 0 <= j < i ==> r@[j]@ == items@[j]@,
        decreases items@.len() - i,
    {
        r.push(String::from_str(items[i]));
        i = i + 1;
    }
    proof {
        assert(r.deep_view() =~= items.deep_view());
    }
    r
}

/// A row of `n` cells, each holding `text`.
fn filled_row(text: &str, n: usize) -> (r: Vec<String>)
    ensures
        r.deep_view() == Seq::new(n as nat, |j: int| text@),
{
    let mut r: Vec<String> = Vec::new();
    let mut i: usize = 0;
    while i < n
        invariant
            i <= n,
            r@.len() == i,
            forall|j: int| 0 <= j < i ==> r@[j]@ == text@,
        decreases n - i,
    {
        r.push(String::from_str(text));
        i = i + 1;
    }
    proof {
        assert(r.deep_view() =~= Seq::new(n as nat, |j: int| text@));
    }
    r
}

/// "1" for a set flag, "0" for a clear one.
fn flag_str(b: bool) -> (r: String)
    ensures
        r@ == flag_text(b),
{
    if b {
        String::from_str("1")
    } else {
        String::from_str("0")
    }
}

impl Term {
    /// The tables are shaped as the setters expect.
    pub open spec fn wf(&self) -> bool {
        &&& self@.regs.len() == 5
        &&& self@.flags.len() == 4
        &&& self@.pc.len() == 2
    }

    /// A view with every memory cell "00", every value "0", no instructions.
    pub fn default() -> (t: Term)
        ensures
            t@ == (TermView {
                mem: initial_mem(),
                inst: Seq::empty(),
                flags: initial_flags(),
                regs: initial_regs(),
                pc: initial_pc(),
            }),
            t.wf(),
    {
        let mut mem: Vec<Vec<String>> = Vec::new();
        let mut i: usize = 0;
        while i < MEMORY_ROWS
            invariant
                i <= MEMORY_ROWS,
                mem@.len() == i,
                forall|k: int|
                    0 <= k < i ==> #[trigger] mem@[k].deep_view() == Seq::new(
                        MEMORY_COLUMNS as nat,
                        |j: int| "00"@,
                    ),
            decreases MEMORY_ROWS - i,
        {
            mem.push(filled_row("00", MEMORY_COLUMNS));
            i = i + 1;
        }
        let regs = vec![
            text_row(vec!["Accumulator", "B", "C"]),
            text_row(vec!["0", "0", "0"]),
            text_row(vec![""]),
            text_row(vec!["D", "E", "H", "L"]),
            text_row(vec!["0", "0", "0", "0"]),
        ];
        let flags = vec![
            text_row(vec!["Sign", "Zero", "Carry"]),
            text_row(vec!["0", "0", "0"]),
            text_row(vec!["Auxiliary", "Parity"]),
            text_row(vec!["0", "0"]),
        ];
        let pc = vec![text_row(vec!["PC"]), text_row(vec!["0"])];
        let t = Term { mem, inst: Vec::new(), flags, regs, pc };
        proof {
            assert(t@.mem =~= initial_mem());
            assert(t@.inst =~= Seq::empty());
            assert(t@.regs =~~= initial_regs());
            assert(t@.flags =~~= initial_flags());
            assert(t@.pc =~~= initial_pc());
        }
        t
    }

    /// Shows `pc` in decimal in the PC table.
    pub fn set_pc(&mut self, pc: u16)
        requires
            old(self).wf(),
        ensures
            final(self)@ == (TermView {
                pc: old(self)@.pc.update(1, seq![decimal(pc as nat)]),
                ..old(self)@
            }),
            final(self).wf(),
    {
        let row = vec![decimal_text(pc as u32)];
        self.pc.set(1, row);
        proof {
            assert(self@.pc =~~= old(self)@.pc.update(1, seq![decimal(pc as nat)]));
        }
    }

    /// Shows the register values in decimal: A, B, C under their headers and
    /// D, E, H, L under theirs.
    pub fn set_regs(&mut self, reg: &Registers)
        requires
            old(self).wf(),
        ensures
            final(self)@ == (TermView {
                regs: old(self)@.regs.update(
                    1,
                    seq![
                        decimal(reg.accumulator as nat),
                        decimal(reg.b as nat),
                        decimal(reg.c as nat),
                    ],
                ).update(
                    4,
                    seq![
                        decimal(reg.d as nat),
                        decimal(reg.e as nat),
                        decimal(reg.h as nat),
                        decimal(reg.l as nat),
                    ],
                ),
                ..old(self)@
            }),
            final(self).wf(),
    {
        let upper = vec![
            decimal_text(reg.accumulator as u32),
            decimal_text(reg.b as u32),
            decimal_text(reg.c as u32),
        ];
        let lower = vec![
            decimal_text(reg.d as u32),
            decimal_text(reg.e as u32),
            decimal_text(reg.h as u32),
            decimal_text(reg.l as u32),
        ];
        self.regs.set(1, upper);
        self.regs.set(4, lower);
        proof {
            assert(self@.regs =~~= old(self)@.regs.update(
                1,
                seq![
                    decimal(reg.accumulator as nat),
                    decimal(reg.b as nat),
                    decimal(reg.c as nat),
                ],
            ).update(
                4,
                seq![
                    decimal(reg.d as nat),
                    decimal(reg.e as nat),
                    decimal(reg.h as nat),
                    decimal(reg.l as nat),
                ],
            ));
        }
    }

    /// Shows each flag as "1" or "0": sign, zero and carry in one row,
    /// auxiliary carry and parity in another.
    pub fn set_flags(&mut self, f: &StatusFlags)
        requires
            old(self).wf(),
        ensures
            final(self)@ == (TermView {
                flags: old(self)@.flags.update(
                    1,
                    seq![
                        flag_text(f.sign_flag),
                        flag_text(f.zero_flag),
                        flag_text(f.carry_flag),
                    ],
                ).update(3, seq![flag_text(f.auxiliary_flag), flag_text(f.parity_flag)]),
                ..old(self)@
            }),
            final(self).wf(),
    {
        let upper = vec![flag_str(f.sign_flag), flag_str(f.zero_flag), flag_str(f.carry_flag)];
        let lower = vec![flag_str(f.auxiliary_flag), flag_str(f.parity_flag)];
        self.flags.set(1, upper);
        self.flags.set(3, lower);
        proof {
            assert(self@.flags =~~= old(self)@.flags.update(
                1,
                seq![flag_text(f.sign_flag), flag_text(f.zero_flag), flag_text(f.carry_flag)],
            ).update(3, seq![flag_text(f.auxiliary_flag), flag_text(f.parity_flag)]));
        }
    }

    /// Replaces the instruction list.
    pub fn update_instructions(&mut self, instructions: Vec<String>)
        ensures
            final(self)@ == (TermView { inst: instructions.deep_view(), ..old(self)@ }),
            old(self).wf() ==> final(self).wf(),
    {
        self.inst = instructions;
    }

    /// The memory table.
    pub fn memory_rows(&self) -> (r: &Vec<Vec<String>>)
        ensures
            r.deep_view() == self@.mem,
    {
        &self.mem
    }

    /// The instruction list.
    pub fn instruction_lines(&self) -> (r: &Vec<String>)
        ensures
            r.deep_view() == self@.inst,
    {
        &self.inst
    }

    /// The flag table.
    pub fn flag_rows(&self) -> (r: &Vec<Vec<String>>)
        ensures
            r.deep_view() == self@.flags,
    {
        &self.flags
    }

    /// The register table.
    pub fn register_rows(&self) -> (r: &Vec<Vec<String>>)
        ensures
            r.deep_view() == self@.regs,
    {
        &self.regs
    }

    /// The PC table.
    pub fn pc_rows(&self) -> (r: &Vec<Vec<String>>)
        ensures
            r.deep_view() == self@.pc,
    {
        &self.pc
    }
}

} // verus!
