//! Model of the foreign runtime's refcounted heap.
//!
//! Every foreign value of a pointer-bearing kind lives in a heap object owned
//! by the foreign allocator.  The object carries an embedded reference
//! counter that may only be mutated while the interpreter lock is held, and
//! is reclaimed by a kind-specific free operation once the counter reaches
//! zero.  The model keeps those objects in a vector indexed by object id; a
//! reclaimed object stays in place with `live == false`, so that ids are
//! stable and a use-after-free is a visible contract violation rather than
//! undefined behaviour.

use vstd::prelude::*;

use crate::svalue::svalue;

verus! {

/// One function registered in a program (class) under compilation.
#[derive(Debug)]
pub struct FuncDecl {
    /// Name under which the foreign runtime exposes the function.
    pub name: String,
    /// The foreign function-type descriptor, e.g. `function(int:string)`.
    pub type_str: String,
    /// Token standing for the native entry-point address.
    pub fun: u64,
}

/// One named program constant registered in a program under compilation.
#[derive(Debug)]
pub struct ConstDecl {
    /// Constant name.
    pub name: String,
    /// Heap id of the program object bound to the name.
    pub prog: usize,
}

/// Contents of a program (class) heap object.
#[derive(Debug)]
pub struct ProgBody {
    /// Functions added while the program was being compiled.
    pub funcs: Vec<FuncDecl>,
    /// Program constants added while the program was being compiled.
    pub constants: Vec<ConstDecl>,
    /// Whether the program declares per-object extension storage.
    pub has_storage: bool,
}

/// Kind-specific contents of a heap object.
#[derive(Debug)]
pub enum ObjData {
    /// Contents the model does not interpret (objects, types, ...).
    Opaque,
    /// A string: a run of bytes (the runtime's binary shared strings).
    Text(Vec<u8>),
    /// An array or multiset: an ordered run of values.
    Elems(Vec<svalue>),
    /// A mapping: key/value entries with pairwise distinct keys.
    Pairs(Vec<(svalue, svalue)>),
    /// A program (class).
    Program(ProgBody),
}

/// One foreign heap object slot.
#[derive(Debug)]
pub struct HeapObject {
    /// Type tag of the object (one of the pointer-bearing kinds).
    pub kind: u16,
    /// Embedded reference counter.
    pub refs: u64,
    /// False once the object has been reclaimed.
    pub live: bool,
    /// Kind-specific contents.
    pub data: ObjData,
}

/// Ghost image of [`FuncDecl`].
#[verifier::ext_equal]
pub struct FuncDeclModel {
    /// Name under which the foreign runtime exposes the function.
    pub name: Seq<char>,
    /// The foreign function-type descriptor.
    pub type_str: Seq<char>,
    /// Token standing for the native entry-point address.
    pub fun: u64,
}

/// Ghost image of [`ConstDecl`].
#[verifier::ext_equal]
pub struct ConstDeclModel {
    /// Constant name.
    pub name: Seq<char>,
    /// Heap id of the program object bound to the name.
    pub prog: usize,
}

/// Ghost image of [`ProgBody`].
#[verifier::ext_equal]
pub struct ProgModel {
    /// Functions added while the program was being compiled.
    pub funcs: Seq<FuncDeclModel>,
    /// Program constants added while the program was being compiled.
    pub constants: Seq<ConstDeclModel>,
    /// Whether the program declares per-object extension storage.
    pub has_storage: bool,
}

/// Ghost image of [`ObjData`].
#[verifier::ext_equal]
pub enum DataModel {
    /// Contents the model does not interpret.
    Opaque,
    /// A string.
    Text(Seq<u8>),
    /// An array or multiset.
    Elems(Seq<svalue>),
    /// A mapping.
    Pairs(Seq<(svalue, svalue)>),
    /// A program.
    Program(ProgModel),
}

/// Ghost image of one heap object slot.
#[verifier::ext_equal]
pub struct ObjModel {
    /// Type tag of the object.
    pub kind: u16,
    /// Embedded reference counter.
    pub refs: u64,
    /// False once the object has been reclaimed.
    pub live: bool,
    /// Kind-specific contents.
    pub data: DataModel,
}

impl View for FuncDecl {
    type V = FuncDeclModel;

    open spec fn view(&self) -> FuncDeclModel {
        FuncDeclModel { name: self.name@, type_str: self.type_str@, fun: self.fun }
    }
}

impl View for ConstDecl {
    type V = ConstDeclModel;

    open spec fn view(&self) -> ConstDeclModel {
        ConstDeclModel { name: self.name@, prog: self.prog }
    }
}

impl View for ProgBody {
    type V = ProgModel;

    open spec fn view(&self) -> ProgModel {
        ProgModel {
            funcs: Seq::new(self.funcs@.len(), |i: int| self.funcs@[i]@),
            constants: Seq::new(self.constants@.len(), |i: int| self.constants@[i]@),
            has_storage: self.has_storage,
        }
    }
}

impl View for ObjData {
    type V = DataModel;

    open spec fn view(&self) -> DataModel {
        match self {
            ObjData::Opaque => DataModel::Opaque,
            ObjData::Text(s) => DataModel::Text(s@),
            ObjData::Elems(v) => DataModel::Elems(v@),
            ObjData::Pairs(v) => DataModel::Pairs(v@),
            ObjData::Program(p) => DataModel::Program(p@),
        }
    }
}

impl View for HeapObject {
    type V = ObjModel;

    open spec fn view(&self) -> ObjModel {
        ObjModel { kind: self.kind, refs: self.refs, live: self.live, data: self.data@ }
    }
}

/// The model heap: all foreign objects ever allocated in this session.
pub struct FHeap {
    objects: Vec<HeapObject>,
}

impl View for FHeap {
    type V = Seq<ObjModel>;

    closed spec fn view(&self) -> Seq<ObjModel> {
        Seq::new(self.objects@.len(), |i: int| self.objects@[i]@)
    }
}

/// The object `id` exists and has not been reclaimed.
pub open spec fn obj_live(heap: Seq<ObjModel>, id: usize) -> bool {
    id < heap.len() && heap[id as int].live
}

/// The reference count of object `id`.
pub open spec fn obj_refs(heap: Seq<ObjModel>, id: usize) -> u64 {
    heap[id as int].refs
}

/// The type tag of object `id`.
pub open spec fn obj_kind(heap: Seq<ObjModel>, id: usize) -> u16 {
    heap[id as int].kind
}

/// The contents of object `id`.
pub open spec fn obj_data(heap: Seq<ObjModel>, id: usize) -> DataModel {
    heap[id as int].data
}

/// The heap after a fresh allocation of one object with one reference.
pub open spec fn alloc_model(heap: Seq<ObjModel>, kind: u16, data: DataModel) -> Seq<ObjModel> {
    heap.push(ObjModel { kind, refs: 1, live: true, data })
}

/// The heap after taking one more reference to object `id`.
pub open spec fn add_ref_model(heap: Seq<ObjModel>, id: usize) -> Seq<ObjModel> {
    heap.update(
        id as int,
        ObjModel { refs: (obj_refs(heap, id) + 1) as u64, ..heap[id as int] },
    )
}

/// The heap after giving up one reference to object `id` without reclaiming
/// it (the surrounding slot stays the caller's responsibility).
pub open spec fn sub_ref_model(heap: Seq<ObjModel>, id: usize) -> Seq<ObjModel> {
    heap.update(
        id as int,
        ObjModel { refs: (obj_refs(heap, id) - 1) as u64, ..heap[id as int] },
    )
}

/// The heap after giving up one reference to object `id`, reclaiming the
/// object when the count reaches zero.
pub open spec fn release_model(heap: Seq<ObjModel>, id: usize) -> Seq<ObjModel> {
    let n = (obj_refs(heap, id) - 1) as u64;
    heap.update(id as int, ObjModel { refs: n, live: n > 0, ..heap[id as int] })
}

/// The heap after replacing the contents of object `id`.
pub open spec fn set_data_model(heap: Seq<ObjModel>, id: usize, data: DataModel) -> Seq<ObjModel> {
    heap.update(id as int, ObjModel { data, ..heap[id as int] })
}

/// The keys of a mapping's entries are pairwise distinct.
pub open spec fn keys_unique(ps: Seq<(svalue, svalue)>) -> bool {
    forall|i: int, j: int| 0 <= i < j < ps.len() ==> ps[i].0 != ps[j].0
}

impl FHeap {
    /// An empty heap.
    pub fn new() -> (r: Self)
        ensures
            r@ =~= Seq::<ObjModel>::empty(),
    {
        FHeap { objects: Vec::new() }
    }

    /// Number of slots ever allocated.
    pub fn len(&self) -> (n: usize)
        ensures
            n == self@.len(),
    {
        self.objects.len()
    }

    /// Allocates a fresh object with reference count 1, as the kind-specific
    /// foreign constructors do, and returns its id.
    pub fn allocate(&mut self, kind: u16, data: ObjData) -> (id: usize)
        ensures
            final(self)@ =~= alloc_model(old(self)@, kind, data@),
            id == old(self)@.len(),
            obj_live(final(self)@, id),
    {
        let id = self.objects.len();
        self.objects.push(HeapObject { kind, refs: 1, live: true, data });
        id
    }

    /// Takes one more reference to a live object.
    pub fn add_ref(&mut self, id: usize)
        requires
            obj_live(old(self)@, id),
            obj_refs(old(self)@, id) < u64::MAX,
        ensures
            final(self)@ =~= add_ref_model(old(self)@, id),
    {
        let slot = vstd::std_specs::vec::vec_index_mut(&mut self.objects, id);
        slot.refs = slot.refs + 1;
    }

    /// Gives up one reference to a live object without reclaiming it; returns
    /// the new count.
    pub fn sub_ref(&mut self, id: usize) -> (n: u64)
        requires
            obj_live(old(self)@, id),
            obj_refs(old(self)@, id) >= 1,
        ensures
            final(self)@ =~= sub_ref_model(old(self)@, id),
            n == obj_refs(final(self)@, id),
    {
        let slot = vstd::std_specs::vec::vec_index_mut(&mut self.objects, id);
        slot.refs = slot.refs - 1;
        slot.refs
    }

    /// Gives up one reference to a live object and reclaims it when the count
    /// reaches zero, as the kind-specific "really free" operations do.
    pub fn release(&mut self, id: usize)
        requires
            obj_live(old(self)@, id),
            obj_refs(old(self)@, id) >= 1,
        ensures
            final(self)@ =~= release_model(old(self)@, id),
    {
        let slot = vstd::std_specs::vec::vec_index_mut(&mut self.objects, id);
        slot.refs = slot.refs - 1;
        if slot.refs == 0 {
            slot.live = false;
        }
    }

    /// Reference count of an allocated object.
    pub fn refs(&self, id: usize) -> (n: u64)
        requires
            id < self@.len(),
        ensures
            n == obj_refs(self@, id),
    {
        self.objects[id].refs
    }

    /// Whether an allocated object is still live.
    pub fn is_live(&self, id: usize) -> (r: bool)
        requires
            id < self@.len(),
        ensures
            r == self@[id as int].live,
    {
        self.objects[id].live
    }

    /// Type tag of an allocated object.
    pub fn kind(&self, id: usize) -> (k: u16)
        requires
            id < self@.len(),
        ensures
            k == obj_kind(self@, id),
    {
        self.objects[id].kind
    }

    /// Read-only view of an object's contents.
    pub fn data(&self, id: usize) -> (d: &ObjData)
        requires
            id < self@.len(),
        ensures
            d@ == obj_data(self@, id),
    {
        &self.objects[id].data
    }

    /// Replaces the contents of a live object.
    pub fn set_data(&mut self, id: usize, data: ObjData)
        requires
            obj_live(old(self)@, id),
        ensures
            final(self)@ =~= set_data_model(old(self)@, id, data@),
    {
        let slot = vstd::std_specs::vec::vec_index_mut(&mut self.objects, id);
        slot.data = data;
    }

    /// Detaches the contents of a live object, leaving it empty.
    pub fn take_data(&mut self, id: usize) -> (d: ObjData)
        requires
            obj_live(old(self)@, id),
        ensures
            d@ == obj_data(old(self)@, id),
            final(self)@ =~= set_data_model(old(self)@, id, DataModel::Opaque),
    {
        let mut obj = self.objects.remove(id);
        let d = obj.data;
        obj.data = ObjData::Opaque;
        self.objects.insert(id, obj);
        proof {
            assert(self.objects@ =~= old(self).objects@.update(
                id as int,
                HeapObject {
                    kind: old(self).objects@[id as int].kind,
                    refs: old(self).objects@[id as int].refs,
                    live: old(self).objects@[id as int].live,
                    data: ObjData::Opaque,
                },
            ));
        }
        d
    }
}

} // verus!
