use vstd::prelude::*;

verus! {

/// One bus transaction, as the processor issued it.
pub enum BusOp {
    Read { addr: u16, value: u8 },
    Write { addr: u16, value: u8 },
}

/// The memory and peripheral bus that the processor drives: one byte read or
/// written at a 16-bit address per transaction. `bus_log` is the history of
/// transactions that the bus has served; a bus that keeps no history of its
/// own needs not say what it is.
pub trait Memory {
    closed spec fn bus_log(&self) -> Seq<BusOp> {
        Seq::empty()
    }

    fn read(&mut self, addr: u16) -> (value: u8)
        ensures
            final(self).bus_log() == old(self).bus_log().push(BusOp::Read { addr, value }),
    ;

    fn write(&mut self, addr: u16, value: u8)
        ensures
            final(self).bus_log() == old(self).bus_log().push(BusOp::Write { addr, value }),
    ;
}

/// Address whose byte is cleared when it is read: a keyboard latch.
pub const CONSOLE_IN: u16 = 0xF004;

/// Address whose writes go to the console instead of memory.
pub const CONSOLE_OUT: u16 = 0xF001;

/// The largest memory the 16-bit address space can hold.
pub const MAX_MEMORY: usize = 65536;

/// A plain RAM bus of up to 64 KiB. Addresses past its end read as zero and
/// ignore writes. A read of `CONSOLE_IN` clears that byte; a write to
/// `CONSOLE_OUT` is queued in `output` for the host to print.
pub struct MemoryArray {
    pub ram: Vec<u8>,
    pub output: Vec<u8>,
    pub log: Ghost<Seq<BusOp>>,
}

/// The byte that a read of `addr` returns from `ram`.
pub open spec fn ram_byte(ram: Seq<u8>, addr: u16) -> u8 {
    if (addr as int) < ram.len() { ram[addr as int] } else { 0 }
}

impl MemoryArray {
    pub fn new(size: usize) -> (r: Result<MemoryArray, &'static str>)
        ensures
            size > MAX_MEMORY ==> r is Err,
            size <= MAX_MEMORY ==> (r matches Ok(m) && m.ram@ == Seq::new(size as nat, |i: int| 0u8)
                && m.output@.len() == 0 && m.log@.len() == 0),
    {
        if size > MAX_MEMORY {
            Err("Too much!")
        } else {
            let mut ram: Vec<u8> = Vec::new();
            let mut i: usize = 0;
            while i < size
                invariant
                    i <= size,
                    ram@ == Seq::new(i as nat, |k: int| 0u8),
                decreases size - i,
            {
                ram.push(0u8);
                i = i + 1;
                assert(ram@ =~= Seq::new(i as nat, |k: int| 0u8));
            }
            Ok(MemoryArray { ram, output: Vec::new(), log: Ghost(Seq::empty()) })
        }
    }
}

impl Memory for MemoryArray {
    open spec fn bus_log(&self) -> Seq<BusOp> {
        self.log@
    }

    fn read(&mut self, addr: u16) -> (value: u8)
        ensures
            value == ram_byte(old(self).ram@, addr),
            final(self).output == old(self).output,
            final(self).ram@ == if addr == CONSOLE_IN && (addr as int) < old(self).ram@.len() {
                old(self).ram@.update(addr as int, 0)
            } else {
                old(self).ram@
            },
    {
        let a = addr as usize;
        let value = if a < self.ram.len() {
            let v = self.ram[a];
            if addr == CONSOLE_IN {
                self.ram.set(a, 0);
            }
            v
        } else {
            0
        };
        self.log = Ghost(self.log@.push(BusOp::Read { addr, value }));
        value
    }

    fn write(&mut self, addr: u16, value: u8)
        ensures
            addr == CONSOLE_OUT ==> final(self).ram@ == old(self).ram@ && final(self).output@
                == old(self).output@.push(value),
            addr != CONSOLE_OUT ==> final(self).output == old(self).output && final(self).ram@
                == if (addr as int) < old(self).ram@.len() {
                old(self).ram@.update(addr as int, value)
            } else {
                old(self).ram@
            },
    {
        let a = addr as usize;
        if addr == CONSOLE_OUT {
            self.output.push(value);
        } else if a < self.ram.len() {
            self.ram.set(a, value);
        }
        self.log = Ghost(self.log@.push(BusOp::Write { addr, value }));
    }
}

} // verus!
