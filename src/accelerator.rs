use vstd::prelude::*;

use crate::target::AcceleratorTargetDesc;

verus! {

/// The process-unique identifier of an accelerator.
#[derive(Clone, Copy, Debug, PartialEq, Eq, Structural, Hash)]
pub struct AcceleratorId {
    pub index: usize,
}

/// Hands out accelerator identifiers, each at most once.
pub struct AcceleratorIdAllocator {
    next: usize,
}

impl AcceleratorIdAllocator {
    /// The lowest index not handed out yet.
    pub closed spec fn next_index(&self) -> nat {
        self.next as nat
    }

    pub fn new() -> (r: AcceleratorIdAllocator)
        ensures
            r.next_index() == 0,
    {
        AcceleratorIdAllocator { next: 0 }
    }

    /// A new identifier, greater than every one handed out before; `None`
    /// once the indices are used up.
    pub fn fresh(&mut self) -> (r: Option<AcceleratorId>)
        ensures
            old(self).next_index() < usize::MAX ==> r == Some(
                AcceleratorId { index: old(self).next_index() as usize },
            ) && final(self).next_index() == old(self).next_index() + 1,
            old(self).next_index() >= usize::MAX ==> r is None && final(self).next_index()
                == old(self).next_index(),
    {
        if self.next < usize::MAX {
            let id = AcceleratorId { index: self.next };
            self.next = self.next + 1;
            Some(id)
        } else {
            None
        }
    }
}

/// A handle to the background compilation worker of one accelerator.
#[derive(Clone, Copy, Debug, PartialEq, Eq, Structural)]
pub struct CodegenComms {
    pub worker: u64,
}

/// Installing `c` into a codegen slot: the slot then holds `c`, and the
/// previous occupant is handed back.
pub open spec fn set_slot(slot: Option<CodegenComms>, c: CodegenComms) -> (
    Option<CodegenComms>,
    Option<CodegenComms>,
) {
    (Some(c), slot)
}

/// A compute device as the runtime sees it: its identifier, the codegen
/// handle of its host counterpart, its target description, and the slot for
/// its own codegen handle.
pub trait Accelerator {
    spec fn spec_id(&self) -> AcceleratorId;

    spec fn codegen_slot(&self) -> Option<CodegenComms>;

    spec fn spec_host_codegen(&self) -> CodegenComms;

    spec fn spec_target_desc(&self) -> AcceleratorTargetDesc;

    fn id(&self) -> (r: AcceleratorId)
        ensures
            r == self.spec_id(),
    ;

    /// The codegen handle for the host counterpart of the accelerator.
    fn host_codegen(&self) -> (r: CodegenComms)
        ensures
            r == self.spec_host_codegen(),
    ;

    fn accel_target_desc(&self) -> (r: &AcceleratorTargetDesc)
        ensures
            *r == self.spec_target_desc(),
    ;

    /// Installs `comms` and hands back the previous occupant of the slot.
    fn set_codegen(&mut self, comms: CodegenComms) -> (r: Option<CodegenComms>)
        ensures
            (final(self).codegen_slot(), r) == set_slot(old(self).codegen_slot(), comms),
            final(self).spec_id() == old(self).spec_id(),
            final(self).spec_host_codegen() == old(self).spec_host_codegen(),
            final(self).spec_target_desc() == old(self).spec_target_desc(),
    ;

    /// The installed codegen handle; `None` means codegen is not started yet.
    fn get_codegen(&self) -> (r: Option<CodegenComms>)
        ensures
            r == self.codegen_slot(),
    ;
}

/// An accelerator's state held by the runtime.
pub struct AcceleratorRecord {
    id: AcceleratorId,
    host_codegen: CodegenComms,
    target_desc: AcceleratorTargetDesc,
    codegen: Option<CodegenComms>,
}

impl AcceleratorRecord {
    /// A record with an empty codegen slot.
    pub fn new(id: AcceleratorId, host_codegen: CodegenComms, target_desc: AcceleratorTargetDesc) -> (r:
        AcceleratorRecord)
        ensures
            r.spec_id() == id,
            r.codegen_slot() is None,
            r.spec_host_codegen() == host_codegen,
            r.spec_target_desc() == target_desc,
    {
        AcceleratorRecord { id, host_codegen, target_desc, codegen: None }
    }
}

impl Accelerator for AcceleratorRecord {
    closed spec fn spec_id(&self) -> AcceleratorId {
        self.id
    }

    closed spec fn codegen_slot(&self) -> Option<CodegenComms> {
        self.codegen
    }

    closed spec fn spec_host_codegen(&self) -> CodegenComms {
        self.host_codegen
    }

    closed spec fn spec_target_desc(&self) -> AcceleratorTargetDesc {
        self.target_desc
    }

    fn id(&self) -> (r: AcceleratorId) {
        self.id
    }

    fn host_codegen(&self) -> (r: CodegenComms) {
        self.host_codegen
    }

    fn accel_target_desc(&self) -> (r: &AcceleratorTargetDesc) {
        &self.target_desc
    }

    fn set_codegen(&mut self, comms: CodegenComms) -> (r: Option<CodegenComms>) {
        let previous = self.codegen;
        self.codegen = Some(comms);
        previous
    }

    fn get_codegen(&self) -> (r: Option<CodegenComms>) {
        self.codegen
    }
}

/// Installing two codegen handles in turn hands back the first at the second
/// installation, and the slot holds the second afterwards.
pub proof fn lemma_set_codegen_twice(slot: Option<CodegenComms>, first: CodegenComms, second: CodegenComms)
    ensures
        ({
            let (s1, r1) = set_slot(slot, first);
            let (s2, r2) = set_slot(s1, second);
            &&& r1 == slot
            &&& r2 == Some(first)
            &&& s2 == Some(second)
        }),
{
}

} // verus!
