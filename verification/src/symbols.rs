//! Symbol-driven layout resolution.
//!
//! The platform debug-information service is an outside collaborator; what
//! it reports about the host module is modeled here as a [`HostImage`]: the
//! composite types it describes (each with its declared members and their
//! byte offsets) and an exact-match table of named function and global
//! addresses. The walk over a type's members mirrors the service's behavior:
//! a member whose per-member sub-query failed is skipped rather than
//! aborting the whole enumeration.

use vstd::prelude::*;

verus! {

/// One declared member of a composite type: its name and byte offset.
pub struct MemberInfo {
    pub name: String,
    pub offset: usize,
}

impl MemberInfo {
    /// The member's declared name.
    pub fn name(&self) -> (r: &String)
        ensures
            r@ == self.name@,
    {
        &self.name
    }

    /// The member's byte offset inside its type.
    pub fn offset(&self) -> (r: usize)
        ensures
            r == self.offset,
    {
        self.offset
    }
}

/// Index of the first child at or past `start` whose per-member sub-query
/// succeeded, if any.
pub open spec fn spec_first_present(entries: Seq<Option<MemberInfo>>, start: int) -> Option<int>
    decreases entries.len() - start,
{
    if start < 0 || start >= entries.len() {
        Option::None
    } else if entries[start] is Some {
        Option::Some(start)
    } else {
        spec_first_present(entries, start + 1)
    }
}

/// Byte offset of the first child at or past `start` that carries `name`,
/// skipping children whose sub-queries failed.
pub open spec fn spec_find_member(
    entries: Seq<Option<MemberInfo>>,
    start: int,
    name: Seq<char>,
) -> Option<usize>
    decreases entries.len() - start,
{
    if start < 0 || start >= entries.len() {
        Option::None
    } else {
        match entries[start] {
            Option::Some(m) => if m.name@ == name {
                Option::Some(m.offset)
            } else {
                spec_find_member(entries, start + 1, name)
            },
            Option::None => spec_find_member(entries, start + 1, name),
        }
    }
}

/// A finite walk over one composite type's declared children, in
/// declaration order. Each child either carries its queried name and offset
/// or stands for a child whose sub-query failed and is skipped. The walk is
/// not restartable mid-way; a fresh one is built from the same children.
pub struct Members {
    entries: Vec<Option<MemberInfo>>,
    start: usize,
}

impl Members {
    /// The walk never stands past the end of its children.
    #[verifier::type_invariant]
    spec fn wf(self) -> bool {
        self.start <= self.entries@.len()
    }

    /// The children this walk was built over.
    pub closed spec fn spec_entries(&self) -> Seq<Option<MemberInfo>> {
        self.entries@
    }

    /// How far the walk has advanced.
    pub closed spec fn spec_start(&self) -> int {
        self.start as int
    }

    /// Begins a walk over a type's queried children.
    pub fn new(entries: Vec<Option<MemberInfo>>) -> (r: Members)
        ensures
            r.spec_entries() == entries@,
            r.spec_start() == 0,
    {
        Members { entries, start: 0 }
    }

    /// Yields the next successfully queried member, skipping children whose
    /// sub-queries failed, or exhausts the walk.
    pub fn next(&mut self) -> (r: Option<MemberInfo>)
        ensures
            final(self).spec_entries() == old(self).spec_entries(),
            match spec_first_present(old(self).spec_entries(), old(self).spec_start()) {
                Option::Some(i) => {
                    &&& r == Option::Some(old(self).spec_entries()[i]->0)
                    &&& final(self).spec_start() == i + 1
                },
                Option::None => {
                    &&& r is None
                    &&& final(self).spec_start() == old(self).spec_entries().len()
                },
            },
    {
        proof {
            use_type_invariant(&*self);
        }
        while self.start < self.entries.len()
            invariant
                0 <= self.start <= self.entries.len(),
                self.entries@ == old(self).spec_entries(),
                old(self).spec_start() <= self.start,
                spec_first_present(old(self).spec_entries(), old(self).spec_start())
                    == spec_first_present(self.entries@, self.start as int),
            decreases self.entries.len() - self.start,
        {
            let idx = self.start;
            match &self.entries[idx] {
                Option::Some(m) => {
                    let found = MemberInfo { name: m.name.clone(), offset: m.offset };
                    self.start = idx + 1;
                    return Option::Some(found);
                },
                Option::None => {
                    self.start = idx + 1;
                },
            }
        }
        Option::None
    }

    /// Looks up a member by name among the children not yet walked past,
    /// advancing the walk. A missing member is reported by `None`, the
    /// distinguishable `MemberNotFound` condition of the resolver.
    pub fn find_offset(&mut self, name: &str) -> (r: Option<usize>)
        ensures
            final(self).spec_entries() == old(self).spec_entries(),
            r == spec_find_member(old(self).spec_entries(), old(self).spec_start(), name@),
    {
        proof {
            use_type_invariant(&*self);
        }
        let target: String = name.to_owned();
        while self.start < self.entries.len()
            invariant
                0 <= self.start <= self.entries.len(),
                self.entries@ == old(self).spec_entries(),
                target@ == name@,
                spec_find_member(old(self).spec_entries(), old(self).spec_start(), name@)
                    == spec_find_member(self.entries@, self.start as int, name@),
            decreases self.entries.len() - self.start,
        {
            let idx = self.start;
            self.start = idx + 1;
            match &self.entries[idx] {
                Option::Some(m) => {
                    if m.name == target {
                        return Option::Some(m.offset);
                    }
                },
                Option::None => {},
            }
        }
        Option::None
    }
}

/// One composite type the debug information describes: its name, its total
/// byte size, and its queried children in declaration order.
pub struct TypeInfo {
    pub name: String,
    pub size: usize,
    pub members: Vec<Option<MemberInfo>>,
}

impl TypeInfo {
    /// Looks up a declared member's byte offset by exact name, walking the
    /// children from the start and skipping failed sub-queries.
    pub fn member_offset(&self, name: &str) -> (r: Option<usize>)
        ensures
            r == spec_find_member(self.members@, 0, name@),
    {
        let mut walk = Members::new(clone_entries(&self.members));
        walk.find_offset(name)
    }
}

/// Copies a type's queried children so a fresh walk can be issued over them.
fn clone_entries(entries: &Vec<Option<MemberInfo>>) -> (r: Vec<Option<MemberInfo>>)
    ensures
        r@ == entries@,
{
    let mut out: Vec<Option<MemberInfo>> = Vec::new();
    let mut i: usize = 0;
    while i < entries.len()
        invariant
            0 <= i <= entries@.len(),
            out@ == entries@.take(i as int),
        decreases entries@.len() - i,
    {
        match &entries[i] {
            Option::Some(m) => {
                let copy = MemberInfo { name: m.name.clone(), offset: m.offset };
                proof {
                    assert(copy == entries@[i as int]->0);
                }
                out.push(Option::Some(copy));
            },
            Option::None => {
                out.push(Option::None);
            },
        }
        proof {
            assert(out@ =~= entries@.take(i as int + 1));
        }
        i = i + 1;
    }
    proof {
        assert(out@ =~= entries@);
    }
    out
}

/// One entry of the exact-match symbol table: a decorated function or data
/// object name and its absolute address inside the host module.
pub struct SymbolAddr {
    pub name: String,
    pub address: u64,
}

/// Address of the first symbol carrying `name`, exact match only.
pub open spec fn spec_find_symbol(symbols: Seq<SymbolAddr>, start: int, name: Seq<char>) -> Option<
    u64,
>
    decreases symbols.len() - start,
{
    if start < 0 || start >= symbols.len() {
        Option::None
    } else if symbols[start].name@ == name {
        Option::Some(symbols[start].address)
    } else {
        spec_find_symbol(symbols, start + 1, name)
    }
}

/// Everything the debug-information service reports about the loaded host
/// module: its composite types and its named addresses.
pub struct HostImage {
    pub types: Vec<TypeInfo>,
    pub symbols: Vec<SymbolAddr>,
}

/// Index of the first described type carrying `name`, exact match only.
pub open spec fn spec_find_type(types: Seq<TypeInfo>, start: int, name: Seq<char>) -> Option<int>
    decreases types.len() - start,
{
    if start < 0 || start >= types.len() {
        Option::None
    } else if types[start].name@ == name {
        Option::Some(start)
    } else {
        spec_find_type(types, start + 1, name)
    }
}

impl HostImage {
    /// Looks up a composite type by exact name.
    pub fn find_type(&self, name: &str) -> (r: Option<&TypeInfo>)
        ensures
            match spec_find_type(self.types@, 0, name@) {
                Option::Some(i) => r is Some && *r->0 == self.types@[i],
                Option::None => r is None,
            },
    {
        let target: String = name.to_owned();
        let mut i: usize = 0;
        while i < self.types.len()
            invariant
                0 <= i <= self.types@.len(),
                target@ == name@,
                spec_find_type(self.types@, 0, name@) == spec_find_type(
                    self.types@,
                    i as int,
                    name@,
                ),
            decreases self.types@.len() - i,
        {
            if self.types[i].name == target {
                return Option::Some(&self.types[i]);
            }
            i = i + 1;
        }
        Option::None
    }
}

/// Maps a textual decorated name to its absolute address inside the host
/// module, exact match only; the single source of truth for every native
/// function pointer and named global address the bridge uses.
pub fn find_function(image: &HostImage, function_name: &str) -> (r: Option<u64>)
    ensures
        r == spec_find_symbol(image.symbols@, 0, function_name@),
{
    let target: String = function_name.to_owned();
    let mut i: usize = 0;
    while i < image.symbols.len()
        invariant
            0 <= i <= image.symbols@.len(),
            target@ == function_name@,
            spec_find_symbol(image.symbols@, 0, function_name@) == spec_find_symbol(
                image.symbols@,
                i as int,
                function_name@,
            ),
        decreases image.symbols@.len() - i,
    {
        if image.symbols[i].name == target {
            return Option::Some(image.symbols[i].address);
        }
        i = i + 1;
    }
    Option::None
}

} // verus!
