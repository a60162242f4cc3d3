use vstd::prelude::*;

verus! {

/// Class id of the audio processor.
pub const PROCESSOR_CID: [u8; 16] = [
    0x99, 0x80, 0x84, 0xb3, 0x8b, 0xd7, 0x0c, 0x0e, 0x0a, 0x25, 0x54, 0x07, 0x80, 0x97, 0x57, 0x6e,
];

/// Class id of the edit controller.
pub const CONTROLLER_CID: [u8; 16] = [
    0x2b, 0x2d, 0x73, 0x88, 0xe6, 0xee, 0x95, 0x0c, 0x8c, 0xc3, 0xed, 0x7c, 0x88, 0x7f, 0x2a, 0x96,
];

pub const VENDOR_NAME: &'static str = "astra137";

pub const VENDOR_EMAIL: &'static str = "maccelerated@gmail.com";

pub const VENDOR_URL: &'static str = "https://github.com/astra137";

pub const COMPONENT_SDK_VERSION: &'static str = "VST 3.6.13";

/// Number of classes the factory offers.
pub const CLASSES: i32 = 2;

/// Any number of instances of a class may exist.
pub const MANY_INSTANCES: i32 = 0x7FFF_FFFF;

/// The classes the factory offers.
#[derive(Clone, Copy, Debug, PartialEq, Eq, Structural)]
pub enum ClassKind {
    Processor,
    Controller,
}

/// What the host learns of one class.
#[derive(Clone, Copy, Debug)]
pub struct ClassInfo {
    pub kind: ClassKind,
    pub cid: [u8; 16],
    pub name: &'static str,
    pub category: &'static str,
    pub subcategories: &'static str,
    pub class_flags: u32,
    pub cardinality: i32,
}

pub open spec fn class_at(index: i32) -> Option<ClassKind> {
    if index == 0 {
        Some(ClassKind::Processor)
    } else if index == 1 {
        Some(ClassKind::Controller)
    } else {
        None
    }
}

pub open spec fn cid_of(kind: ClassKind) -> Seq<u8> {
    match kind {
        ClassKind::Processor => PROCESSOR_CID@,
        ClassKind::Controller => CONTROLLER_CID@,
    }
}

/// The plugin factory: lists the processor and the controller, and tells
/// which class an id names.
#[derive(Clone, Copy, Debug)]
pub struct Factory {}

impl Factory {
    pub fn new() -> (r: Factory) {
        Factory {}
    }

    /// Number of classes offered.
    pub fn count_classes(&self) -> (r: i32)
        ensures
            r == CLASSES,
    {
        CLASSES
    }

    /// The class at `index`: the processor first, then the controller.
    pub fn get_class(index: i32) -> (r: Option<ClassInfo>)
        ensures
            r.is_some() <==> 0 <= index < CLASSES,
            r matches Some(info) ==> {
                &&& Some(info.kind) == class_at(index)
                &&& info.cid@ == cid_of(info.kind)
                &&& info.cardinality == MANY_INSTANCES
                &&& info.class_flags == (if info.kind == ClassKind::Processor {
                    1u32
                } else {
                    0u32
                })
                &&& info.kind == ClassKind::Processor ==> {
                    &&& info.name@ == "Opus Parvulum"@
                    &&& info.category@ == "Audio Module Class"@
                    &&& info.subcategories@ == "Fx"@
                }
                &&& info.kind == ClassKind::Controller ==> {
                    &&& info.name@ == "Opus Parvulum Controller"@
                    &&& info.category@ == "Component Controller Class"@
                    &&& info.subcategories@ == ""@
                }
            },
    {
        if index == 0 {
            Some(
                ClassInfo {
                    kind: ClassKind::Processor,
                    cid: PROCESSOR_CID,
                    name: "Opus Parvulum",
                    category: "Audio Module Class",
                    subcategories: "Fx",
                    class_flags: 1,
                    cardinality: MANY_INSTANCES,
                },
            )
        } else if index == 1 {
            Some(
                ClassInfo {
                    kind: ClassKind::Controller,
                    cid: CONTROLLER_CID,
                    name: "Opus Parvulum Controller",
                    category: "Component Controller Class",
                    subcategories: "",
                    class_flags: 0,
                    cardinality: MANY_INSTANCES,
                },
            )
        } else {
            None
        }
    }

    /// The class that `cid` names, if any.
    pub fn class_of(cid: &[u8; 16]) -> (r: Option<ClassKind>)
        ensures
            r matches Some(k) ==> cid@ == cid_of(k),
            r is None ==> cid@ != cid_of(ClassKind::Processor) && cid@ != cid_of(
                ClassKind::Controller,
            ),
    {
        let p = PROCESSOR_CID;
        let c = CONTROLLER_CID;
        if same_id(cid, &p) {
            Some(ClassKind::Processor)
        } else if same_id(cid, &c) {
            Some(ClassKind::Controller)
        } else {
            None
        }
    }
}

/// Whether two class ids are equal.
pub fn same_id(a: &[u8; 16], b: &[u8; 16]) -> (r: bool)
    ensures
        r == (a@ == b@),
{
    let mut i: usize = 0;
    while i < 16
        invariant
            i <= 16,
            a@.len() == 16,
            b@.len() == 16,
            forall|j: int| 0 <= j < i ==> a@[j] == b@[j],
        decreases 16 - i,
    {
        if a[i] != b[i] {
            return false;
        }
        i += 1;
    }
    assert(a@ =~= b@);
    true
}

} // verus!
