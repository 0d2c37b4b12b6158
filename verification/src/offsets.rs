//! Relocation-independent function offsets.
//!
//! A function's address in a symbol database is recorded against the static
//! link base of the module; the running process loads the module at an
//! arbitrary base. An offset relative to the static link base survives that
//! relocation: rebasing is a single addition against the live base.

use vstd::prelude::*;

use crate::text::{has_prefix, str_has_prefix};

verus! {

/// The static link base that the symbol database records absolute addresses
/// against.
pub const STATIC_LINK_BASE: i64 = 0x140000000;

/// Converts an absolute address recorded by the symbol database into an
/// offset relative to the static link base.
pub fn exe_space(offset: i64) -> (r: i64)
    requires
        offset - STATIC_LINK_BASE >= i64::MIN,
    ensures
        r == offset - STATIC_LINK_BASE,
{
    offset - STATIC_LINK_BASE
}

/// The target module as loaded in the current process: only its live base
/// address, and rebasing of relative offsets against it.
pub struct ModuleImage {
    pub base: u64,
}

impl ModuleImage {
    /// Rebasing: a relative offset plus the live base gives the absolute
    /// address in this process.
    pub fn resolve(&self, relative_offset: u64) -> (r: u64)
        requires
            self.base + relative_offset <= u64::MAX,
        ensures
            r == self.base + relative_offset,
    {
        self.base + relative_offset
    }
}

/// Relocation independence: whatever base the module is loaded at, the
/// resolved absolute address minus that base is the relative offset again.
pub proof fn lemma_relocation_independent(b1: u64, b2: u64, r: u64)
    requires
        b1 + r <= u64::MAX,
        b2 + r <= u64::MAX,
    ensures
        (b1 + r) - b1 == r,
        (b2 + r) - b2 == r,
        (b1 + r) - b1 == (b2 + r) - b2,
{
}

/// One public function from the symbol database: its name as recorded there
/// (possibly mangled) and its address relative to the module, as the
/// database's own address map gives it.
pub struct SymbolEntry {
    pub name: String,
    pub rva: u64,
}

/// The functions of one symbol database, in the database's own order.
pub struct SymbolTable {
    pub entries: Vec<SymbolEntry>,
}

/// The demangled form of a symbol name, a function of the characters alone.
pub uninterp spec fn demangled_of(s: Seq<char>) -> Seq<char>;

/// Relies on rustc_demangle::demangle: rewrites a mangled symbol name into
/// its human-readable form, depending on the input characters alone.
#[verifier::external_body]
fn demangle_name(s: &str) -> (r: String)
    ensures
        r@ == demangled_of(s@),
{
    rustc_demangle::demangle(s).to_string()
}

/// Whether the entry at `i` demangles to a name that starts with `prefix`.
pub open spec fn symbol_matches(entries: Seq<SymbolEntry>, prefix: Seq<char>, i: int) -> bool {
    has_prefix(demangled_of(entries[i].name@), prefix)
}

/// Whether `i` is the first entry whose demangled name starts with `prefix`.
pub open spec fn is_first_match(entries: Seq<SymbolEntry>, prefix: Seq<char>, i: int) -> bool {
    &&& 0 <= i < entries.len()
    &&& symbol_matches(entries, prefix, i)
    &&& forall|j: int| 0 <= j < i ==> !symbol_matches(entries, prefix, j)
}

/// Whether no entry demangles to a name that starts with `prefix`.
pub open spec fn no_match(entries: Seq<SymbolEntry>, prefix: Seq<char>) -> bool {
    forall|i: int| 0 <= i < entries.len() ==> !symbol_matches(entries, prefix, i)
}

/// Returns the relative offset of the first symbol whose demangled name
/// starts with `prefix`, or nothing when no symbol does.
pub fn find_offset(table: &SymbolTable, prefix: &str) -> (r: Option<u64>)
    ensures
        r matches Some(off) ==> exists|i: int|
            is_first_match(table.entries@, prefix@, i) && off == table.entries@[i].rva,
        r is None ==> no_match(table.entries@, prefix@),
{
    let n = table.entries.len();
    let mut i: usize = 0;
    while i < n
        invariant
            i <= n,
            n == table.entries@.len(),
            forall|j: int| 0 <= j < i ==> !symbol_matches(table.entries@, prefix@, j),
        decreases n - i,
    {
        let demangled = demangle_name(table.entries[i].name.as_str());
        if str_has_prefix(demangled.as_str(), prefix) {
            proof {
                assert(is_first_match(table.entries@, prefix@, i as int));
            }
            return Some(table.entries[i].rva);
        }
        i += 1;
    }
    None
}

/// Resolution failure: no symbol of the database matched.
#[derive(Debug, PartialEq, Eq, Structural, Clone, Copy)]
pub enum ResolveError {
    NotFound,
}

/// The relative offsets that the instrumentation needs, one per hooked
/// function.
pub struct Offsets {
    pub run_schedule: u64,
}

/// The demangled-name prefix of the scheduler-run function that gets hooked.
pub open spec fn run_schedule_prefix() -> Seq<char> {
    "bevy_ecs::schedule::schedule::Schedule::run"@
}

/// Looks up the relative offset of every function the instrumentation hooks:
/// the scheduler-run function, by the prefix of its demangled name.
pub fn find_offsets(table: &SymbolTable) -> (r: Result<Offsets, ResolveError>)
    ensures
        r matches Ok(o) ==> exists|i: int|
            is_first_match(table.entries@, run_schedule_prefix(), i) && o.run_schedule
                == table.entries@[i].rva,
        r matches Err(e) ==> no_match(table.entries@, run_schedule_prefix()) && e
            == ResolveError::NotFound,
{
    let prefix = "bevy_ecs::schedule::schedule::Schedule::run";
    proof {
        assert(prefix@ == run_schedule_prefix());
    }
    match find_offset(table, prefix) {
        Some(run_schedule) => Ok(Offsets { run_schedule }),
        None => Err(ResolveError::NotFound),
    }
}

} // verus!
