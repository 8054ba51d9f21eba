//! Metadata type identities and their resolution by name: type definitions
//! of the current module, type references into other scopes, and the
//! importer interface that resolves names through those scopes.

use vstd::prelude::*;
use crate::image::NetAssembly;

verus! {

/// Why a metadata query failed.
#[derive(Debug, Clone, Copy, PartialEq, Eq, Structural)]
pub enum CorErr {
    /// No type of the searched scope has the name.
    NotFound,
    /// Two types of one scope share the name: the metadata is corrupt.
    DuplicateName,
    /// The image carries no CLI header, so it is not a managed assembly.
    MissingCliHeader,
}

/// A type defined in the current module: a row of its type definitions.
#[derive(Debug, Clone, Copy, PartialEq, Eq, Structural)]
pub struct TypeDef {
    pub row: usize,
}

/// A reference to a type that some scope is expected to define.
#[derive(Debug, Clone, Copy, PartialEq, Eq, Structural)]
pub struct TypeRef {
    pub row: usize,
}

/// A reference to another module.
#[derive(Debug, Clone, Copy, PartialEq, Eq, Structural)]
pub struct ModuleRef {
    pub row: usize,
}

/// A reference to another assembly.
#[derive(Debug, Clone, Copy, PartialEq, Eq, Structural)]
pub struct AssemblyRef {
    pub row: usize,
}

/// A type, defined here or referenced.
#[derive(Debug, Clone, Copy, PartialEq, Eq, Structural)]
pub enum TypeHandle {
    TypeDef(TypeDef),
    TypeRef(TypeRef),
}

/// The context against which a type reference is resolved; a `Type` scope
/// names the enclosing type of a nested type.
#[derive(Debug, Clone, Copy, PartialEq, Eq, Structural)]
pub enum ResolutionScope {
    Module(ModuleRef),
    Assembly(AssemblyRef),
    Type(TypeRef),
}

/// Name resolution over the metadata of one module.
pub trait MetaDataImporter {
    /// Finds the type definition called `name`: among the types nested
    /// directly in `enclosing_type` when it is given, else among top-level
    /// types.
    fn find_typedef(&self, name: &str, enclosing_type: Option<&TypeHandle>) -> Result<
        TypeDef,
        CorErr,
    >;

    /// The reference to a type called `name` in `scope`; the same pair
    /// always gives the same reference.
    fn find_typeref(&mut self, scope: &ResolutionScope, name: &str) -> TypeRef;

    /// The runtime version that the image's metadata records.
    fn get_version_string(&self) -> Result<String, CorErr>;
}

/// Whether two scopes are the same.
fn same_scope(a: &ResolutionScope, b: &ResolutionScope) -> (r: bool)
    ensures
        r == (*a == *b),
{
    match (a, b) {
        (ResolutionScope::Module(x), ResolutionScope::Module(y)) => x.row == y.row,
        (ResolutionScope::Assembly(x), ResolutionScope::Assembly(y)) => x.row == y.row,
        (ResolutionScope::Type(x), ResolutionScope::Type(y)) => x.row == y.row,
        _ => false,
    }
}

/// A type definition row: its name and the type it is nested in, if any.
struct TypeDefRow {
    name: String,
    enclosing: Option<TypeDef>,
}

/// A type reference row: its scope and name.
struct TypeRefRow {
    scope: ResolutionScope,
    name: String,
}

/// The abstract content of a module's metadata.
pub struct MetadataView {
    /// Name and enclosing type of each type definition, by row.
    pub typedefs: Seq<(Seq<char>, Option<TypeDef>)>,
    /// Scope and name of each type reference, by row.
    pub typerefs: Seq<(ResolutionScope, Seq<char>)>,
    /// The runtime version, absent without CLI metadata.
    pub version: Option<Seq<char>>,
}

/// The type definitions and references of one module, and its runtime
/// version.
pub struct ModuleMetadata {
    typedefs: Vec<TypeDefRow>,
    typerefs: Vec<TypeRefRow>,
    version: Option<String>,
}

/// The view of an optional string.
pub open spec fn opt_view(s: Option<String>) -> Option<Seq<char>> {
    match s {
        Some(s) => Some(s@),
        None => None,
    }
}

impl View for ModuleMetadata {
    type V = MetadataView;

    closed spec fn view(&self) -> MetadataView {
        MetadataView {
            typedefs: self.typedefs@.map_values(
                |r: TypeDefRow| (r.name@, r.enclosing),
            ),
            typerefs: self.typerefs@.map_values(|r: TypeRefRow| (r.scope, r.name@)),
            version: opt_view(self.version),
        }
    }
}

/// The handle that an optional borrowed handle points at.
pub open spec fn handle_of(h: Option<&TypeHandle>) -> Option<TypeHandle> {
    match h {
        Some(h) => Some(*h),
        None => None,
    }
}

/// Which enclosing type a definition must have to be found in the scope of
/// `enclosing`: none for a top-level search, the given definition for a
/// nested one. A type reference encloses no definition of this module.
pub open spec fn lookup_scope(enclosing: Option<TypeHandle>) -> Option<Option<TypeDef>> {
    match enclosing {
        None => Some(None),
        Some(TypeHandle::TypeDef(d)) => Some(Some(d)),
        Some(TypeHandle::TypeRef(_)) => None,
    }
}

/// Row `i` is a definition called `name` in the scope of `enclosing`.
pub open spec fn typedef_matches(
    m: MetadataView,
    name: Seq<char>,
    enclosing: Option<TypeHandle>,
    i: int,
) -> bool {
    &&& 0 <= i < m.typedefs.len()
    &&& lookup_scope(enclosing) matches Some(s)
    &&& m.typedefs[i] == (name, s)
}

/// The result of looking up `name` in the scope of `enclosing`: the one
/// matching row, `NotFound` without one, `DuplicateName` with several.
pub open spec fn typedef_lookup(
    m: MetadataView,
    name: Seq<char>,
    enclosing: Option<TypeHandle>,
) -> Result<TypeDef, CorErr> {
    if exists|i: int| typedef_matches(m, name, enclosing, i) {
        let i = choose|i: int| typedef_matches(m, name, enclosing, i);
        if exists|j: int| j != i && typedef_matches(m, name, enclosing, j) {
            Err(CorErr::DuplicateName)
        } else {
            Ok(TypeDef { row: i as usize })
        }
    } else {
        Err(CorErr::NotFound)
    }
}

/// A nested lookup never yields a top-level type and a top-level lookup
/// never yields a nested one, whatever other types share the name.
pub proof fn nested_lookup_scoping(m: MetadataView, name: Seq<char>, enclosing: TypeHandle)
    requires
        m.typedefs.len() <= usize::MAX,
    ensures
        typedef_lookup(m, name, Some(enclosing)) matches Ok(d) ==> {
            &&& d.row < m.typedefs.len()
            &&& m.typedefs[d.row as int].1 is Some
        },
        typedef_lookup(m, name, None) matches Ok(d) ==> {
            &&& d.row < m.typedefs.len()
            &&& m.typedefs[d.row as int].1 is None
        },
{
    let outer = Some(enclosing);
    if exists|i: int| typedef_matches(m, name, outer, i) {
        let i = choose|i: int| typedef_matches(m, name, outer, i);
        assert(typedef_matches(m, name, outer, i));
    }
    if exists|i: int| typedef_matches(m, name, None, i) {
        let i = choose|i: int| typedef_matches(m, name, None, i);
        assert(typedef_matches(m, name, None, i));
    }
}

impl ModuleMetadata {
    /// Empty metadata with the given runtime version; `None` stands for an
    /// image without CLI metadata.
    pub fn new(version: Option<String>) -> (r: ModuleMetadata)
        ensures
            r@.typedefs.len() == 0,
            r@.typerefs.len() == 0,
            r@.version == opt_view(version),
    {
        let r = ModuleMetadata { typedefs: Vec::new(), typerefs: Vec::new(), version };
        assert(r@.typedefs =~= Seq::empty());
        assert(r@.typerefs =~= Seq::empty());
        r
    }

    /// Empty metadata for `assembly`, whose metadata records `version`. An
    /// assembly without a CLI header records no version.
    pub fn from_assembly(assembly: &NetAssembly, version: String) -> (r: ModuleMetadata)
        ensures
            r@.typedefs.len() == 0,
            r@.typerefs.len() == 0,
            r@.version == (if assembly.spec_image().optional_header.data_directories.spec_cli_header() is Some {
                Some(version@)
            } else {
                None
            }),
    {
        match assembly.cli_header() {
            Some(_) => ModuleMetadata::new(Some(version)),
            None => ModuleMetadata::new(None),
        }
    }

    /// Records a type definition called `name`, nested in `enclosing` if it
    /// is given. Fails, changing nothing, if `enclosing` is not a recorded
    /// definition.
    pub fn add_typedef(&mut self, name: String, enclosing: Option<TypeDef>) -> (r: Option<TypeDef>)
        ensures
            r is Some <==> (enclosing matches Some(e) ==> e.row < old(self)@.typedefs.len()),
            r matches Some(d) ==> {
                &&& d.row == old(self)@.typedefs.len()
                &&& final(self)@.typedefs == old(self)@.typedefs.push((name@, enclosing))
            },
            r is None ==> final(self)@.typedefs == old(self)@.typedefs,
            final(self)@.typerefs == old(self)@.typerefs,
            final(self)@.version == old(self)@.version,
    {
        if let Some(e) = enclosing {
            if e.row >= self.typedefs.len() {
                return None;
            }
        }
        let ghost old_view = self@;
        let ghost name_view = name@;
        let row = self.typedefs.len();
        self.typedefs.push(TypeDefRow { name, enclosing });
        assert(self@.typedefs =~= old_view.typedefs.push((name_view, enclosing)));
        Some(TypeDef { row })
    }

    /// Looks up the type definition called `name`: among the types nested
    /// directly in `enclosing_type` when it is given, else among top-level
    /// types.
    pub fn find_typedef(&self, name: &str, enclosing_type: Option<&TypeHandle>) -> (r: Result<
        TypeDef,
        CorErr,
    >)
        ensures
            r == typedef_lookup(self@, name@, handle_of(enclosing_type)),
    {
        let scope: Option<TypeDef> = match enclosing_type {
            None => None,
            Some(TypeHandle::TypeDef(d)) => Some(*d),
            Some(TypeHandle::TypeRef(_)) => {
                return Err(CorErr::NotFound);
            },
        };
        let key = name.to_owned();
        let mut found: Option<usize> = None;
        let mut i: usize = 0;
        while i < self.typedefs.len()
            invariant
                i <= self.typedefs@.len(),
                lookup_scope(handle_of(enclosing_type)) == Some(scope),
                key@ == name@,
                found matches Some(f) ==> f < i && typedef_matches(self@, name@, handle_of(enclosing_type), f as int),
                forall|j: int|
                    0 <= j < i && typedef_matches(self@, name@, handle_of(enclosing_type), j) ==> found == Some(
                        j as usize,
                    ),
            decreases self.typedefs@.len() - i,
        {
            let row = &self.typedefs[i];
            let same_scope = match (row.enclosing, scope) {
                (Some(a), Some(b)) => a.row == b.row,
                (None, None) => true,
                _ => false,
            };
            if same_scope && row.name == key {
                assert(typedef_matches(self@, name@, handle_of(enclosing_type), i as int));
                match found {
                    Some(f) => {
                        proof {
                            let c = choose|c: int| typedef_matches(self@, name@, handle_of(enclosing_type), c);
                            assert(typedef_matches(self@, name@, handle_of(enclosing_type), c));
                            if c == f as int {
                                assert(i as int != c && typedef_matches(self@, name@, handle_of(enclosing_type), i as int));
                            } else {
                                assert(f as int != c && typedef_matches(self@, name@, handle_of(enclosing_type), f as int));
                            }
                            assert(exists|j: int| j != c && typedef_matches(self@, name@, handle_of(enclosing_type), j));
                        }
                        return Err(CorErr::DuplicateName);
                    },
                    None => {
                        found = Some(i);
                    },
                }
            } else {
                assert(!typedef_matches(self@, name@, handle_of(enclosing_type), i as int));
            }
            i = i + 1;
        }
        match found {
            Some(f) => {
                assert(typedef_matches(self@, name@, handle_of(enclosing_type), f as int));
                Ok(TypeDef { row: f })
            },
            None => Err(CorErr::NotFound),
        }
    }

    /// The reference to a type called `name` in `scope`. A pair asked for
    /// before gives the reference recorded then; a new pair is recorded.
    pub fn find_typeref(&mut self, scope: &ResolutionScope, name: &str) -> (r: TypeRef)
        ensures
            r.row < final(self)@.typerefs.len(),
            final(self)@.typerefs[r.row as int] == (*scope, name@),
            forall|j: int| 0 <= j < r.row ==> final(self)@.typerefs[j] != (*scope, name@),
            old(self)@.typerefs.contains((*scope, name@)) ==> final(self)@.typerefs == old(
                self,
            )@.typerefs,
            !old(self)@.typerefs.contains((*scope, name@)) ==> final(self)@.typerefs == old(
                self,
            )@.typerefs.push((*scope, name@)),
            final(self)@.typedefs == old(self)@.typedefs,
            final(self)@.version == old(self)@.version,
    {
        let key = name.to_owned();
        let mut i: usize = 0;
        while i < self.typerefs.len()
            invariant
                i <= self.typerefs@.len(),
                key@ == name@,
                forall|j: int| 0 <= j < i ==> self@.typerefs[j] != (*scope, name@),
            decreases self.typerefs@.len() - i,
        {
            let row = &self.typerefs[i];
            if same_scope(&row.scope, scope) && row.name == key {
                assert(self@.typerefs[i as int] == (*scope, name@));
                return TypeRef { row: i };
            }
            assert(self@.typerefs[i as int] != (*scope, name@));
            i = i + 1;
        }
        assert(!self@.typerefs.contains((*scope, name@)));
        let ghost old_view = self@;
        let row = self.typerefs.len();
        self.typerefs.push(TypeRefRow { scope: *scope, name: key });
        assert(self@.typerefs =~= old_view.typerefs.push((*scope, name@)));
        TypeRef { row }
    }

    /// The runtime version; `MissingCliHeader` for an image without CLI
    /// metadata.
    pub fn get_version_string(&self) -> (r: Result<String, CorErr>)
        ensures
            r is Ok <==> self@.version is Some,
            r matches Ok(v) ==> self@.version == Some(v@),
            r is Err ==> r == Err::<String, CorErr>(CorErr::MissingCliHeader),
    {
        match &self.version {
            Some(v) => Ok(v.clone()),
            None => Err(CorErr::MissingCliHeader),
        }
    }
}

impl MetaDataImporter for ModuleMetadata {
    fn find_typedef(&self, name: &str, enclosing_type: Option<&TypeHandle>) -> Result<
        TypeDef,
        CorErr,
    > {
        ModuleMetadata::find_typedef(self, name, enclosing_type)
    }

    fn find_typeref(&mut self, scope: &ResolutionScope, name: &str) -> TypeRef {
        ModuleMetadata::find_typeref(self, scope, name)
    }

    fn get_version_string(&self) -> Result<String, CorErr> {
        ModuleMetadata::get_version_string(self)
    }
}

} // verus!
