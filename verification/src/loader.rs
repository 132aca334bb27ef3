//! Finding GL entry points: which symbols are looked up, in which order, and which address wins.
//!
//! Each search is a small state machine. `action` says what has to be looked up next, and
//! `answer` takes the address that came back, zero standing for a null pointer.

use vstd::prelude::*;

use crate::backend::{proc_backend, Backend};
use crate::names::Symbol;

verus! {

/// What looking a symbol up in the process gives.
pub type SymbolTable = spec_fn(Symbol) -> u64;

/// What calling the loader at an address gives, for one wanted name.
pub type LoaderTable = spec_fn(u64) -> u64;

/// An address as an option: a null pointer is `None`.
pub open spec fn non_null(address: u64) -> Option<u64> {
    if address != 0 {
        Some(address)
    } else {
        None
    }
}

/// The address that a lookup gave, or `None` for a null pointer.
pub fn resolve_symbol(address: u64) -> (found: Option<u64>)
    ensures
        found == non_null(address),
        found is Some <==> address != 0,
        found matches Some(kept) ==> kept == address,
{
    if address == 0 {
        None
    } else {
        Some(address)
    }
}

/// The places in the order in which loaders are tried.
#[derive(Clone, Copy, Debug, PartialEq, Eq, Structural)]
pub enum Candidate {
    /// epoxy's loader.
    Epoxy,
    /// The loader that belongs to the backend.
    Primary,
    /// EGL's loader.
    Egl,
    /// GLX's loader.
    Glx,
}

impl Candidate {
    /// The symbol of the candidate.
    pub open spec fn symbol_for(self, backend: Backend) -> Symbol {
        match self {
            Candidate::Epoxy => Symbol::EpoxyGetProcAddress,
            Candidate::Primary => match backend {
                Backend::Wayland => Symbol::EglGetProcAddress,
                Backend::X11 => Symbol::GlxGetProcAddressArb,
            },
            Candidate::Egl => Symbol::EglGetProcAddress,
            Candidate::Glx => Symbol::GlxGetProcAddressArb,
        }
    }

    /// The candidate that comes after this one.
    pub open spec fn successor(self) -> Option<Candidate> {
        match self {
            Candidate::Epoxy => Some(Candidate::Primary),
            Candidate::Primary => Some(Candidate::Egl),
            Candidate::Egl => Some(Candidate::Glx),
            Candidate::Glx => None,
        }
    }

    /// How many candidates are left, this one counted.
    pub open spec fn left(self) -> nat {
        match self {
            Candidate::Epoxy => 4,
            Candidate::Primary => 3,
            Candidate::Egl => 2,
            Candidate::Glx => 1,
        }
    }

    /// The symbol of the candidate.
    pub fn symbol(self, backend: Backend) -> (symbol: Symbol)
        ensures
            symbol == self.symbol_for(backend),
    {
        match self {
            Candidate::Epoxy => Symbol::EpoxyGetProcAddress,
            Candidate::Primary => match backend {
                Backend::Wayland => Symbol::EglGetProcAddress,
                Backend::X11 => Symbol::GlxGetProcAddressArb,
            },
            Candidate::Egl => Symbol::EglGetProcAddress,
            Candidate::Glx => Symbol::GlxGetProcAddressArb,
        }
    }

    /// The candidate that comes after this one.
    pub fn next(self) -> (next: Option<Candidate>)
        ensures
            next == self.successor(),
    {
        match self {
            Candidate::Epoxy => Some(Candidate::Primary),
            Candidate::Primary => Some(Candidate::Egl),
            Candidate::Egl => Some(Candidate::Glx),
            Candidate::Glx => None,
        }
    }
}

/// The loader that a process with these symbols uses: epoxy's where there is one, then the
/// backend's own, then the other backend's.
pub open spec fn loader_in(backend: Backend, symbols: SymbolTable) -> Option<u64> {
    let epoxy = symbols(Symbol::EpoxyGetProcAddress);
    let egl = symbols(Symbol::EglGetProcAddress);
    let glx = symbols(Symbol::GlxGetProcAddressArb);
    let (first, second) = match backend {
        Backend::Wayland => (egl, glx),
        Backend::X11 => (glx, egl),
    };
    if epoxy != 0 {
        Some(epoxy)
    } else if first != 0 {
        Some(first)
    } else {
        non_null(second)
    }
}

/// The search for a GL loader.
#[derive(Clone, Copy, Debug, PartialEq, Eq, Structural)]
pub enum LoaderSearch {
    /// This candidate is being looked up.
    Looking { backend: Backend, candidate: Candidate },
    /// The loader is at this address.
    Found(u64),
    /// The process has no loader.
    Missing,
}

/// Starts the search for the loader of `backend`.
pub fn proc_loader_for(backend: Backend) -> (search: LoaderSearch)
    ensures
        search == LoaderSearch::initial(backend),
        search == (LoaderSearch::Looking { backend, candidate: Candidate::Epoxy }),
{
    LoaderSearch::Looking { backend, candidate: Candidate::Epoxy }
}

/// Starts the search for the loader of the backend that the flag kept by `prepare` tells.
pub fn proc_loader(wayland: bool) -> (search: LoaderSearch)
    ensures
        search == LoaderSearch::for_flag(wayland),
        search == (LoaderSearch::Looking {
            backend: (if wayland {
                Backend::Wayland
            } else {
                Backend::X11
            }),
            candidate: Candidate::Epoxy,
        }),
{
    proc_loader_for(proc_backend(wayland))
}

impl LoaderSearch {
    /// The search at its start: every candidate is still to come.
    pub open spec fn initial(backend: Backend) -> LoaderSearch {
        LoaderSearch::Looking { backend, candidate: Candidate::Epoxy }
    }

    /// The search at its start, for the backend that the flag kept by `prepare` tells.
    pub open spec fn for_flag(wayland: bool) -> LoaderSearch {
        LoaderSearch::initial(
            if wayland {
                Backend::Wayland
            } else {
                Backend::X11
            },
        )
    }

    /// The symbol that is being looked up.
    pub open spec fn wanted_symbol(self) -> Option<Symbol> {
        match self {
            LoaderSearch::Looking { backend, candidate } => Some(candidate.symbol_for(backend)),
            _ => None,
        }
    }

    /// The search once the lookup gave `address`: a loader ends it, a null pointer moves it on
    /// to the next candidate, and a search that is over stays as it is.
    pub open spec fn answered(self, address: u64) -> LoaderSearch {
        match self {
            LoaderSearch::Looking { backend, candidate } => if address != 0 {
                LoaderSearch::Found(address)
            } else {
                match candidate.successor() {
                    Some(next) => LoaderSearch::Looking { backend, candidate: next },
                    None => LoaderSearch::Missing,
                }
            },
            _ => self,
        }
    }

    /// How many lookups can still come.
    pub open spec fn left(self) -> nat {
        match self {
            LoaderSearch::Looking { candidate, .. } => candidate.left(),
            _ => 0,
        }
    }

    /// What the search finds in a process with these symbols.
    pub open spec fn outcome(self, symbols: SymbolTable) -> Option<u64>
        decreases self.left(),
    {
        match self.wanted_symbol() {
            Some(symbol) => self.answered(symbols(symbol)).outcome(symbols),
            None => match self {
                LoaderSearch::Found(address) => Some(address),
                _ => None,
            },
        }
    }

    /// The symbol to look up next; `None` once the search is over.
    pub fn wanted(self) -> (symbol: Option<Symbol>)
        ensures
            symbol == self.wanted_symbol(),
    {
        match self {
            LoaderSearch::Looking { backend, candidate } => Some(candidate.symbol(backend)),
            _ => None,
        }
    }

    /// Takes the address that looking up the wanted symbol gave.
    pub fn answer(self, address: u64) -> (next: LoaderSearch)
        ensures
            next == self.answered(address),
            self is Looking ==> next.left() < self.left(),
    {
        match self {
            LoaderSearch::Looking { backend, candidate } => match resolve_symbol(address) {
                Some(found) => LoaderSearch::Found(found),
                None => match candidate.next() {
                    Some(next) => LoaderSearch::Looking { backend, candidate: next },
                    None => LoaderSearch::Missing,
                },
            },
            _ => self,
        }
    }
}

/// The search finds epoxy's loader where there is one, then the backend's own, then the other
/// backend's; it finds none only in a process that has none of the three.
pub proof fn law_loader_search(backend: Backend, symbols: SymbolTable)
    ensures
        LoaderSearch::initial(backend).outcome(symbols) == loader_in(backend, symbols),
        loader_in(backend, symbols) is None <==> symbols(Symbol::EpoxyGetProcAddress) == 0
            && symbols(Symbol::EglGetProcAddress) == 0 && symbols(Symbol::GlxGetProcAddressArb)
            == 0,
{
    reveal_with_fuel(LoaderSearch::outcome, 6);
}

/// Which loader the search finds, by the addresses of the three symbols: epoxy's wherever it is
/// not null; else, on Wayland, EGL's before GLX's, and on X11 GLX's before EGL's; and none where
/// all three are null. Without a backend at hand, the flag tells it.
pub proof fn law_loader_preference(symbols: SymbolTable, wayland: bool)
    ensures
        ({
            let epoxy = symbols(Symbol::EpoxyGetProcAddress);
            let egl = symbols(Symbol::EglGetProcAddress);
            let glx = symbols(Symbol::GlxGetProcAddressArb);
            let on_wayland = LoaderSearch::initial(Backend::Wayland).outcome(symbols);
            let on_x11 = LoaderSearch::initial(Backend::X11).outcome(symbols);
            &&& epoxy != 0 ==> on_wayland == Some(epoxy) && on_x11 == Some(epoxy)
            &&& epoxy == 0 && egl != 0 ==> on_wayland == Some(egl)
            &&& epoxy == 0 && glx != 0 ==> on_x11 == Some(glx)
            &&& epoxy == 0 && egl == 0 && glx != 0 ==> on_wayland == Some(glx)
            &&& epoxy == 0 && glx == 0 && egl != 0 ==> on_x11 == Some(egl)
            &&& epoxy == 0 && egl == 0 && glx == 0 ==> on_wayland is None && on_x11 is None
            &&& wayland ==> LoaderSearch::for_flag(wayland).outcome(symbols) == on_wayland
            &&& !wayland ==> LoaderSearch::for_flag(wayland).outcome(symbols) == on_x11
        }),
{
    law_loader_search(Backend::Wayland, symbols);
    law_loader_search(Backend::X11, symbols);
}

/// The text of a C string, or the empty text where its bytes are not UTF-8.
pub open spec fn requested_text(bytes: Seq<u8>) -> Seq<char> {
    if vstd::utf8::valid_utf8(bytes) {
        vstd::utf8::decode_utf8(bytes)
    } else {
        Seq::empty()
    }
}

/// Calls `std::str::from_utf8`: the bytes as text where they are UTF-8, and nothing otherwise.
#[verifier::external_body]
fn text_from_utf8(bytes: &[u8]) -> (text: Option<&str>)
    ensures
        text is Some <==> vstd::utf8::valid_utf8(bytes@),
        text matches Some(value) ==> value@ == vstd::utf8::decode_utf8(bytes@),
{
    std::str::from_utf8(bytes).ok()
}

/// What the lookup of a GL entry point asks for.
#[derive(Clone, Copy, Debug, PartialEq, Eq, Structural)]
pub enum ProcAction {
    /// Look this symbol up in the process.
    Lookup(Symbol),
    /// Ask the loader at this address for the wanted name.
    CallLoader(u64),
    /// Look the wanted name itself up in the process.
    LookupName,
    /// The lookup is over, with this address.
    Finished(u64),
}

/// How far the lookup of a GL entry point has come.
#[derive(Clone, Copy, Debug, PartialEq, Eq, Structural)]
pub enum ProcStage {
    Searching { backend: Backend, candidate: Candidate },
    Calling(u64),
    Direct,
    Finished(u64),
}

/// The lookup of the GL entry point of a given name.
pub struct GlProcLookup {
    pub name: String,
    pub stage: ProcStage,
}

impl ProcStage {
    /// The stage at which the lookup of `name` starts. No C string holds a name with a NUL
    /// character in it, so such a name is given up at once.
    pub open spec fn initial(backend: Backend, name: Seq<char>) -> ProcStage {
        if name.contains('\0') {
            ProcStage::Finished(0)
        } else {
            ProcStage::Searching { backend, candidate: Candidate::Epoxy }
        }
    }

    /// The stage at which the lookup of `name` starts, for the backend that the flag kept by
    /// `prepare` tells.
    pub open spec fn for_flag(wayland: bool, name: Seq<char>) -> ProcStage {
        ProcStage::initial(
            if wayland {
                Backend::Wayland
            } else {
                Backend::X11
            },
            name,
        )
    }

    /// What has to be done at this stage.
    pub open spec fn due(self) -> ProcAction {
        match self {
            ProcStage::Searching { backend, candidate } => ProcAction::Lookup(
                candidate.symbol_for(backend),
            ),
            ProcStage::Calling(loader) => ProcAction::CallLoader(loader),
            ProcStage::Direct => ProcAction::LookupName,
            ProcStage::Finished(address) => ProcAction::Finished(address),
        }
    }

    /// The stage once the action gave `address`.
    pub open spec fn answered(self, address: u64) -> ProcStage {
        match self {
            ProcStage::Searching { backend, candidate } => match (LoaderSearch::Looking {
                backend,
                candidate,
            }).answered(address) {
                LoaderSearch::Looking { backend, candidate } => ProcStage::Searching {
                    backend,
                    candidate,
                },
                LoaderSearch::Found(loader) => ProcStage::Calling(loader),
                LoaderSearch::Missing => ProcStage::Direct,
            },
            ProcStage::Calling(_) => if address != 0 {
                ProcStage::Finished(address)
            } else {
                ProcStage::Direct
            },
            ProcStage::Direct => ProcStage::Finished(address),
            ProcStage::Finished(_) => self,
        }
    }

    /// How many actions can still come.
    pub open spec fn left(self) -> nat {
        match self {
            ProcStage::Searching { candidate, .. } => candidate.left() + 2,
            ProcStage::Calling(_) => 2,
            ProcStage::Direct => 1,
            ProcStage::Finished(_) => 0,
        }
    }

    /// The address that the lookup ends with, in a process with these symbols, whose loaders
    /// answer the wanted name as `by_loader` says, and where looking that name up gives
    /// `direct`.
    pub open spec fn outcome(
        self,
        symbols: SymbolTable,
        by_loader: LoaderTable,
        direct: u64,
    ) -> u64
        decreases self.left(),
    {
        match self.due() {
            ProcAction::Lookup(symbol) => self.answered(symbols(symbol)).outcome(
                symbols,
                by_loader,
                direct,
            ),
            ProcAction::CallLoader(loader) => self.answered(by_loader(loader)).outcome(
                symbols,
                by_loader,
                direct,
            ),
            ProcAction::LookupName => self.answered(direct).outcome(symbols, by_loader, direct),
            ProcAction::Finished(address) => address,
        }
    }
}

/// Whether a text holds a NUL character.
fn holds_nul(text: &str) -> (held: bool)
    ensures
        held == text@.contains('\0'),
{
    let len: usize = text.unicode_len();
    let mut i: usize = 0;
    while i < len
        invariant
            i <= len,
            len == text@.len(),
            forall|k: int| 0 <= k < i ==> text@[k] != '\0',
        decreases len - i,
    {
        if text.get_char(i) == '\0' {
            return true;
        }
        i = i + 1;
    }
    false
}

/// Starts the lookup of the GL entry point `name`.
pub fn lookup_gl_proc(backend: Backend, name: &str) -> (lookup: GlProcLookup)
    ensures
        lookup.name@ == name@,
        lookup.stage == ProcStage::initial(backend, name@),
{
    let stage: ProcStage = if holds_nul(name) {
        ProcStage::Finished(0)
    } else {
        ProcStage::Searching { backend, candidate: Candidate::Epoxy }
    };
    GlProcLookup { name: name.to_owned(), stage }
}

/// Starts the lookup of the GL entry point `name` for the backend that the flag kept by
/// `prepare` tells.
pub fn get_proc_address(wayland: bool, name: &str) -> (lookup: GlProcLookup)
    ensures
        lookup.name@ == name@,
        wayland ==> lookup.stage == ProcStage::initial(Backend::Wayland, name@),
        !wayland ==> lookup.stage == ProcStage::initial(Backend::X11, name@),
        lookup.stage == ProcStage::for_flag(wayland, name@),
{
    lookup_gl_proc(proc_backend(wayland), name)
}

/// Starts the lookup of the GL entry point that mpv asks for by the bytes of a C string, the
/// NUL at its end left out. Bytes that are not UTF-8 stand for the empty name.
pub fn gl_proc_address(backend: Backend, name: &[u8]) -> (lookup: GlProcLookup)
    ensures
        lookup.name@ == requested_text(name@),
        lookup.stage == ProcStage::initial(backend, requested_text(name@)),
{
    match text_from_utf8(name) {
        Some(text) => lookup_gl_proc(backend, text),
        None => {
            proof {
                reveal_strlit("");
                assert(""@ =~= Seq::<char>::empty());
            }
            lookup_gl_proc(backend, "")
        },
    }
}

impl GlProcLookup {
    /// The wanted name.
    pub fn name(&self) -> (name: &str)
        ensures
            name@ == self.name@,
    {
        self.name.as_str()
    }

    /// What has to be done next.
    pub fn action(&self) -> (action: ProcAction)
        ensures
            action == self.stage.due(),
    {
        match self.stage {
            ProcStage::Searching { backend, candidate } => ProcAction::Lookup(
                candidate.symbol(backend),
            ),
            ProcStage::Calling(loader) => ProcAction::CallLoader(loader),
            ProcStage::Direct => ProcAction::LookupName,
            ProcStage::Finished(address) => ProcAction::Finished(address),
        }
    }

    /// Takes the address that the action gave.
    pub fn answer(self, address: u64) -> (next: GlProcLookup)
        ensures
            next.name == self.name,
            next.stage == self.stage.answered(address),
            !(self.stage is Finished) ==> next.stage.left() < self.stage.left(),
    {
        let stage: ProcStage = match self.stage {
            ProcStage::Searching { backend, candidate } => {
                let search = LoaderSearch::Looking { backend, candidate };
                match search.answer(address) {
                    LoaderSearch::Looking { backend, candidate } => ProcStage::Searching {
                        backend,
                        candidate,
                    },
                    LoaderSearch::Found(loader) => ProcStage::Calling(loader),
                    LoaderSearch::Missing => ProcStage::Direct,
                }
            },
            ProcStage::Calling(loader) => match resolve_symbol(address) {
                Some(found) => ProcStage::Finished(found),
                None => ProcStage::Direct,
            },
            ProcStage::Direct => ProcStage::Finished(address),
            ProcStage::Finished(done) => ProcStage::Finished(done),
        };
        GlProcLookup { name: self.name, stage }
    }
}

/// The lookup ends with what the loader says, where there is a loader and it knows the name,
/// and with what the process itself has under that name otherwise. A name with a NUL character
/// ends with a null pointer.
pub proof fn law_gl_proc_lookup(
    backend: Backend,
    name: Seq<char>,
    symbols: SymbolTable,
    by_loader: LoaderTable,
    direct: u64,
)
    ensures
        ProcStage::initial(backend, name).outcome(symbols, by_loader, direct) == (if name.contains(
            '\0',
        ) {
            0
        } else {
            match loader_in(backend, symbols) {
                Some(loader) if by_loader(loader) != 0 => by_loader(loader),
                _ => direct,
            }
        }),
{
    reveal_with_fuel(ProcStage::outcome, 8);
}

/// What looking a name up comes to, by the addresses themselves. A name with a NUL character
/// comes to a null pointer. Any other comes to what the loader says of it, where that is not
/// null, and else to what the process has under it. The loader is epoxy's where that is not
/// null, else EGL's on Wayland and GLX's on X11, else the other one.
pub proof fn law_proc_address(
    wayland: bool,
    name: Seq<char>,
    symbols: SymbolTable,
    by_loader: LoaderTable,
    direct: u64,
)
    ensures
        ({
            let epoxy = symbols(Symbol::EpoxyGetProcAddress);
            let egl = symbols(Symbol::EglGetProcAddress);
            let glx = symbols(Symbol::GlxGetProcAddressArb);
            let first = if wayland { egl } else { glx };
            let second = if wayland { glx } else { egl };
            let found = ProcStage::for_flag(wayland, name).outcome(symbols, by_loader, direct);
            let on_wayland = ProcStage::initial(Backend::Wayland, name);
            let on_x11 = ProcStage::initial(Backend::X11, name);
            let given_by = |loader: u64| {
                &&& by_loader(loader) != 0 ==> found == by_loader(loader)
                &&& by_loader(loader) == 0 ==> found == direct
            };
            &&& (exists|i: int| 0 <= i < name.len() && #[trigger] name[i] == '\0') ==> found == 0
            &&& (forall|i: int| 0 <= i < name.len() ==> #[trigger] name[i] != '\0') ==> {
                &&& epoxy != 0 ==> given_by(epoxy)
                &&& epoxy == 0 && first != 0 ==> given_by(first)
                &&& epoxy == 0 && first == 0 && second != 0 ==> given_by(second)
                &&& epoxy == 0 && egl == 0 && glx == 0 ==> found == direct
            }
            &&& wayland ==> on_wayland.outcome(symbols, by_loader, direct) == found
            &&& !wayland ==> on_x11.outcome(symbols, by_loader, direct) == found
        }),
{
    law_gl_proc_lookup(Backend::Wayland, name, symbols, by_loader, direct);
    law_gl_proc_lookup(Backend::X11, name, symbols, by_loader, direct);
}

/// The bytes that mpv asks by are read as UTF-8: the bytes of any text stand for that text, and
/// bytes that are the bytes of no text stand for the empty one.
pub proof fn law_requested_text(text: Seq<char>, bytes: Seq<u8>)
    ensures
        requested_text(vstd::utf8::encode_utf8(text)) == text,
        vstd::utf8::encode_utf8(requested_text(bytes)) == bytes || requested_text(bytes).len()
            == 0,
{
    vstd::utf8::encode_utf8_valid_utf8(text);
    vstd::utf8::encode_utf8_decode_utf8(text);
    if vstd::utf8::valid_utf8(bytes) {
        vstd::utf8::decode_utf8_encode_utf8(bytes);
    }
}

/// What resolving a GL function asks for.
#[derive(Clone, Copy, Debug, PartialEq, Eq, Structural)]
pub enum ResolveAction {
    /// Look this symbol up in the process.
    Lookup(Symbol),
    /// Ask the loader at this address for this symbol.
    CallLoader { loader: u64, symbol: Symbol },
    /// The function is at this address, or cannot be had.
    Finished(Option<u64>),
}

/// Resolving a GL function for the library's own use.
#[derive(Clone, Copy, Debug, PartialEq, Eq, Structural)]
pub enum GlResolve {
    Direct { symbol: Symbol, backend: Backend },
    Searching { symbol: Symbol, backend: Backend, candidate: Candidate },
    Calling { symbol: Symbol, loader: u64 },
    Finished(Option<u64>),
}

/// Starts resolving `symbol`; `backend` is the one whose loader helps out.
pub fn resolve_gl(symbol: Symbol, backend: Backend) -> (resolve: GlResolve)
    ensures
        resolve == GlResolve::initial(symbol, backend),
        resolve == (GlResolve::Direct { symbol, backend }),
{
    GlResolve::Direct { symbol, backend }
}

impl GlResolve {
    /// The stage at which resolving starts.
    pub open spec fn initial(symbol: Symbol, backend: Backend) -> GlResolve {
        GlResolve::Direct { symbol, backend }
    }

    /// What has to be done at this stage.
    pub open spec fn due(self) -> ResolveAction {
        match self {
            GlResolve::Direct { symbol, .. } => ResolveAction::Lookup(symbol),
            GlResolve::Searching { backend, candidate, .. } => ResolveAction::Lookup(
                candidate.symbol_for(backend),
            ),
            GlResolve::Calling { symbol, loader } => ResolveAction::CallLoader { loader, symbol },
            GlResolve::Finished(result) => ResolveAction::Finished(result),
        }
    }

    /// The stage once the action gave `address`.
    pub open spec fn answered(self, address: u64) -> GlResolve {
        match self {
            GlResolve::Direct { symbol, backend } => if address != 0 {
                GlResolve::Finished(Some(address))
            } else {
                GlResolve::Searching { symbol, backend, candidate: Candidate::Epoxy }
            },
            GlResolve::Searching { symbol, backend, candidate } => match (LoaderSearch::Looking {
                backend,
                candidate,
            }).answered(address) {
                LoaderSearch::Looking { backend, candidate } => GlResolve::Searching {
                    symbol,
                    backend,
                    candidate,
                },
                LoaderSearch::Found(loader) => GlResolve::Calling { symbol, loader },
                LoaderSearch::Missing => GlResolve::Finished(None),
            },
            GlResolve::Calling { .. } => GlResolve::Finished(non_null(address)),
            GlResolve::Finished(_) => self,
        }
    }

    /// How many actions can still come.
    pub open spec fn left(self) -> nat {
        match self {
            GlResolve::Direct { .. } => 6,
            GlResolve::Searching { candidate, .. } => candidate.left() + 1,
            GlResolve::Calling { .. } => 1,
            GlResolve::Finished(_) => 0,
        }
    }

    /// What resolving ends with, in a process with these symbols, whose loaders answer for a
    /// symbol as `by_loader` says.
    pub open spec fn outcome(
        self,
        symbols: SymbolTable,
        by_loader: spec_fn(u64, Symbol) -> u64,
    ) -> Option<u64>
        decreases self.left(),
    {
        match self.due() {
            ResolveAction::Lookup(symbol) => self.answered(symbols(symbol)).outcome(
                symbols,
                by_loader,
            ),
            ResolveAction::CallLoader { loader, symbol } => self.answered(
                by_loader(loader, symbol),
            ).outcome(symbols, by_loader),
            ResolveAction::Finished(result) => result,
        }
    }

    /// What has to be done next.
    pub fn action(self) -> (action: ResolveAction)
        ensures
            action == self.due(),
    {
        match self {
            GlResolve::Direct { symbol, backend } => ResolveAction::Lookup(symbol),
            GlResolve::Searching { symbol, backend, candidate } => ResolveAction::Lookup(
                candidate.symbol(backend),
            ),
            GlResolve::Calling { symbol, loader } => ResolveAction::CallLoader { loader, symbol },
            GlResolve::Finished(result) => ResolveAction::Finished(result),
        }
    }

    /// Takes the address that the action gave.
    pub fn answer(self, address: u64) -> (next: GlResolve)
        ensures
            next == self.answered(address),
            !(self is Finished) ==> next.left() < self.left(),
    {
        match self {
            GlResolve::Direct { symbol, backend } => match resolve_symbol(address) {
                Some(found) => GlResolve::Finished(Some(found)),
                None => GlResolve::Searching { symbol, backend, candidate: Candidate::Epoxy },
            },
            GlResolve::Searching { symbol, backend, candidate } => {
                let search = LoaderSearch::Looking { backend, candidate };
                match search.answer(address) {
                    LoaderSearch::Looking { backend, candidate } => GlResolve::Searching {
                        symbol,
                        backend,
                        candidate,
                    },
                    LoaderSearch::Found(loader) => GlResolve::Calling { symbol, loader },
                    LoaderSearch::Missing => GlResolve::Finished(None),
                }
            },
            GlResolve::Calling { symbol, loader } => GlResolve::Finished(resolve_symbol(address)),
            GlResolve::Finished(result) => GlResolve::Finished(result),
        }
    }
}

/// A function that the process itself has is taken from there; any other is what the loader
/// gives for it, and cannot be had where there is no loader or the loader does not know it.
pub proof fn law_gl_resolve(
    symbol: Symbol,
    backend: Backend,
    symbols: SymbolTable,
    by_loader: spec_fn(u64, Symbol) -> u64,
)
    ensures
        GlResolve::initial(symbol, backend).outcome(symbols, by_loader) == (if symbols(symbol)
            != 0 {
            Some(symbols(symbol))
        } else {
            match loader_in(backend, symbols) {
                Some(loader) => non_null(by_loader(loader, symbol)),
                None => None,
            }
        }),
{
    reveal_with_fuel(GlResolve::outcome, 8);
}

/// Where a GL function comes from, by the addresses themselves: from the process, where it has
/// one that is not null; else from the loader, which is epoxy's where that is not null, else
/// EGL's on Wayland and GLX's on X11, else the other one. It cannot be had exactly where the
/// process has none and there is no loader, or the loader gives a null pointer for it.
pub proof fn law_resolved_address(
    symbol: Symbol,
    backend: Backend,
    symbols: SymbolTable,
    by_loader: spec_fn(u64, Symbol) -> u64,
)
    ensures
        ({
            let own = symbols(symbol);
            let epoxy = symbols(Symbol::EpoxyGetProcAddress);
            let egl = symbols(Symbol::EglGetProcAddress);
            let glx = symbols(Symbol::GlxGetProcAddressArb);
            let first = if backend is Wayland { egl } else { glx };
            let second = if backend is Wayland { glx } else { egl };
            let found = GlResolve::initial(symbol, backend).outcome(symbols, by_loader);
            let given_by = |loader: u64| {
                &&& by_loader(loader, symbol) != 0 ==> found == Some(by_loader(loader, symbol))
                &&& by_loader(loader, symbol) == 0 ==> found is None
            };
            &&& own != 0 ==> found == Some(own)
            &&& own == 0 && epoxy != 0 ==> given_by(epoxy)
            &&& own == 0 && epoxy == 0 && first != 0 ==> given_by(first)
            &&& own == 0 && epoxy == 0 && first == 0 && second != 0 ==> given_by(second)
            &&& own == 0 && epoxy == 0 && egl == 0 && glx == 0 ==> found is None
        }),
{
    law_gl_resolve(symbol, backend, symbols, by_loader);
}

/// A search or a lookup that is over stays over, with the address that it has.
pub proof fn law_finished_lookups_stay(
    search: LoaderSearch,
    stage: ProcStage,
    resolve: GlResolve,
    address: u64,
)
    ensures
        search.wanted_symbol() is None ==> search.answered(address) == search,
        search is Found || search is Missing ==> search.wanted_symbol() is None,
        stage.due() is Finished ==> stage.answered(address) == stage,
        stage matches ProcStage::Finished(found) ==> stage.due() == ProcAction::Finished(found),
        resolve.due() is Finished ==> resolve.answered(address) == resolve,
        resolve matches GlResolve::Finished(found) ==> resolve.due() == ResolveAction::Finished(
            found,
        ),
{
}

} // verus!
