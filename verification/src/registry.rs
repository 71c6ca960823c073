//! The tool registry: descriptors with their handlers, kept in registration
//! order, no name twice.

use vstd::prelude::*;
use vstd::string::*;
use crate::descriptor::{descriptor_views, DescriptorView, ToolDescriptor};
use crate::search::{distinct, first_index, is_first, lemma_first_absent, lemma_first_found,
    lemma_push_fresh, lemma_push_other, occurrences};

verus! {

/// A name was registered twice.
#[derive(Debug, PartialEq, Eq)]
pub struct DuplicateToolError {
    pub name: String,
}

/// No tool of that name is registered.
#[derive(Debug, PartialEq, Eq)]
pub struct NotFoundError {
    pub name: String,
}

/// One registration: a descriptor and the handler bound to it.
struct Entry<H> {
    descriptor: ToolDescriptor,
    handler: H,
}

/// The mathematical content of one registration.
pub struct EntryView<H> {
    pub descriptor: DescriptorView,
    pub handler: H,
}

/// The views of a run of registrations, in order.
spec fn entry_views<H>(entries: Seq<Entry<H>>) -> Seq<EntryView<H>> {
    Seq::new(
        entries.len(),
        |i: int| EntryView { descriptor: entries[i].descriptor@, handler: entries[i].handler },
    )
}

/// The registered names, in registration order.
pub open spec fn names<H>(reg: Seq<EntryView<H>>) -> Seq<Seq<char>> {
    Seq::new(reg.len(), |i: int| reg[i].descriptor.name)
}

/// The registered descriptors, in registration order.
pub open spec fn descriptors<H>(reg: Seq<EntryView<H>>) -> Seq<DescriptorView> {
    Seq::new(reg.len(), |i: int| reg[i].descriptor)
}

/// The position at which `name` is registered.
pub open spec fn find<H>(reg: Seq<EntryView<H>>, name: Seq<char>) -> Option<int> {
    first_index(names(reg), name)
}

/// What a registry always satisfies: no name is registered twice, and no
/// registered name is empty.
pub open spec fn wf<H>(reg: Seq<EntryView<H>>) -> bool {
    &&& distinct(names(reg))
    &&& forall|i: int| 0 <= i < reg.len() ==> (#[trigger] reg[i]).descriptor.wf()
}

/// The registry after an attempt to register `entry`: the entry goes to the
/// end, unless its name is taken, in which case there is no new registry.
pub open spec fn after_register<H>(reg: Seq<EntryView<H>>, entry: EntryView<H>) -> Option<
    Seq<EntryView<H>>,
> {
    if find(reg, entry.descriptor.name) is Some {
        None
    } else {
        Some(reg.push(entry))
    }
}

/// The tools that a server offers.
pub struct ToolRegistry<H> {
    entries: Vec<Entry<H>>,
}

impl<H> View for ToolRegistry<H> {
    type V = Seq<EntryView<H>>;

    closed spec fn view(&self) -> Seq<EntryView<H>> {
        entry_views(self.entries@)
    }
}

impl<H> ToolRegistry<H> {
    #[verifier::type_invariant]
    spec fn inv(self) -> bool {
        wf(entry_views(self.entries@))
    }

    /// An empty registry.
    pub fn new() -> (r: ToolRegistry<H>)
        ensures
            r@ == Seq::<EntryView<H>>::empty(),
            wf(r@),
    {
        let r = ToolRegistry { entries: Vec::new() };
        assert(r@ =~= Seq::empty());
        r
    }

    /// The number of registered tools.
    pub fn len(&self) -> (n: usize)
        ensures
            n == self@.len(),
            wf(self@),
    {
        proof {
            use_type_invariant(self);
        }
        self.entries.len()
    }

    /// The position at which `name` is registered.
    fn position(&self, name: &String) -> (r: Option<usize>)
        ensures
            match r {
                Some(i) => find(self@, name@) == Some(i as int) && i < self@.len()
                    && self@[i as int].descriptor.name == name@,
                None => find(self@, name@) is None,
            },
    {
        let ghost flags = occurrences(names(self@), name@);
        let mut i: usize = 0;
        while i < self.entries.len()
            invariant
                i <= self.entries@.len(),
                flags == occurrences(names(self@), name@),
                forall|j: int| 0 <= j < i ==> !flags[j],
            decreases self.entries@.len() - i,
        {
            if self.entries[i].descriptor.is_named(name) {
                proof {
                    assert(is_first(flags, i as int));
                    lemma_first_found(flags, i as int);
                }
                return Some(i);
            }
            i += 1;
        }
        proof {
            lemma_first_absent(flags);
        }
        None
    }

    /// Whether a tool of that name is registered.
    pub fn contains(&self, name: &str) -> (b: bool)
        ensures
            b == find(self@, name@).is_some(),
    {
        let owned = String::from_str(name);
        self.position(&owned).is_some()
    }

    /// Registers a tool under its descriptor's name, after the tools that
    /// are there. A name that is taken is refused, and the registry stays as
    /// it was.
    pub fn register(&mut self, descriptor: ToolDescriptor, handler: H) -> (r: Result<
        (),
        DuplicateToolError,
    >)
        ensures
            wf(old(self)@),
            wf(final(self)@),
            match r {
                Ok(_) => after_register(
                    old(self)@,
                    EntryView { descriptor: descriptor@, handler },
                ) == Some(final(self)@),
                Err(e) => after_register(
                    old(self)@,
                    EntryView { descriptor: descriptor@, handler },
                ) is None && final(self)@ == old(self)@ && e.name@ == descriptor@.name,
            },
    {
        proof {
            use_type_invariant(&*self);
        }
        let ghost before = self@;
        let name = String::from_str(descriptor.name());
        match self.position(&name) {
            Some(_) => Err(DuplicateToolError { name }),
            None => {
                let mut entries: Vec<Entry<H>> = Vec::new();
                core::mem::swap(&mut self.entries, &mut entries);
                entries.push(Entry { descriptor, handler });
                proof {
                    let after = entry_views(entries@);
                    assert(after =~= before.push(EntryView { descriptor: descriptor@, handler }));
                    assert(names(after) =~= names(before).push(descriptor@.name));
                    lemma_push_fresh(names(before), descriptor@.name);
                }
                self.entries = entries;
                Ok(())
            },
        }
    }

    /// The descriptor and the handler registered under `name`.
    pub fn get(&self, name: &str) -> (r: Result<(&ToolDescriptor, &H), NotFoundError>)
        ensures
            match r {
                Ok((d, h)) => find(self@, name@) is Some && d@ == self@[find(
                    self@,
                    name@,
                )->Some_0].descriptor && *h == self@[find(self@, name@)->Some_0].handler
                    && d@.name == name@,
                Err(e) => find(self@, name@) is None && e.name@ == name@,
            },
    {
        let owned = String::from_str(name);
        match self.position(&owned) {
            Some(i) => Ok((&self.entries[i].descriptor, &self.entries[i].handler)),
            None => Err(NotFoundError { name: owned }),
        }
    }

    /// The descriptors of all registered tools, in registration order.
    pub fn list(&self) -> (r: Vec<ToolDescriptor>)
        ensures
            descriptor_views(r@) == descriptors(self@),
    {
        let mut out: Vec<ToolDescriptor> = Vec::new();
        let mut i: usize = 0;
        while i < self.entries.len()
            invariant
                i <= self.entries@.len(),
                out@.len() == i,
                forall|j: int| 0 <= j < i ==> out@[j]@ == self.entries@[j].descriptor@,
            decreases self.entries@.len() - i,
        {
            out.push(self.entries[i].descriptor.clone());
            i += 1;
        }
        assert(descriptor_views(out@) =~= descriptors(self@));
        out
    }
}

/// Registering a tool whose name is free succeeds, keeps the registry well
/// formed, leaves every earlier registration where it was, and puts the new
/// one last in the listing.
pub proof fn lemma_register_fresh<H>(reg: Seq<EntryView<H>>, entry: EntryView<H>)
    requires
        wf(reg),
        entry.descriptor.wf(),
        find(reg, entry.descriptor.name) is None,
    ensures
        after_register(reg, entry) == Some(reg.push(entry)),
        wf(reg.push(entry)),
        find(reg.push(entry), entry.descriptor.name) == Some(reg.len() as int),
        forall|i: int| 0 <= i < reg.len() ==> reg.push(entry)[i] == reg[i],
        descriptors(reg.push(entry)) == descriptors(reg).push(entry.descriptor),
{
    let grown = reg.push(entry);
    assert(names(grown) =~= names(reg).push(entry.descriptor.name));
    lemma_push_fresh(names(reg), entry.descriptor.name);
    assert(descriptors(grown) =~= descriptors(reg).push(entry.descriptor));
}

/// Two tools with different names, both free, register one after the other;
/// a third attempt under either name is then refused.
pub proof fn lemma_register_two<H>(
    reg: Seq<EntryView<H>>,
    first: EntryView<H>,
    second: EntryView<H>,
    again: EntryView<H>,
)
    requires
        wf(reg),
        first.descriptor.wf(),
        second.descriptor.wf(),
        find(reg, first.descriptor.name) is None,
        find(reg, second.descriptor.name) is None,
        first.descriptor.name != second.descriptor.name,
        again.descriptor.name == first.descriptor.name || again.descriptor.name
            == second.descriptor.name,
    ensures
        after_register(reg, first) == Some(reg.push(first)),
        after_register(reg.push(first), second) == Some(reg.push(first).push(second)),
        after_register(reg.push(first).push(second), again) is None,
        find(reg.push(first).push(second), first.descriptor.name) == Some(reg.len() as int),
        find(reg.push(first).push(second), second.descriptor.name) == Some(reg.len() as int + 1),
{
    let one = reg.push(first);
    let two = one.push(second);
    lemma_register_fresh(reg, first);
    assert(names(one) =~= names(reg).push(first.descriptor.name));
    lemma_push_other(names(reg), first.descriptor.name, second.descriptor.name);
    lemma_register_fresh(one, second);
    assert(names(two) =~= names(one).push(second.descriptor.name));
    lemma_push_other(names(one), second.descriptor.name, first.descriptor.name);
}

} // verus!
