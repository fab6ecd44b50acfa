//! Optional per-file flags of the BSD family that a filesystem under test may
//! be able to store.

use vstd::prelude::*;
use vstd::string::*;

verus! {

/// A file flag that not every filesystem can store. A test case that needs one
/// runs only when the configuration lists it.
#[derive(Clone, Copy, Debug, PartialEq, Eq, Hash, Structural)]
pub enum FileFlags {
    /// Do not dump the file.
    UfNodump,
    /// The file may not be changed, set by its owner.
    UfImmutable,
    /// The file may only be appended to, set by its owner.
    UfAppend,
    /// The directory is opaque when viewed through a union mount.
    UfOpaque,
    /// The file may not be removed or renamed, set by its owner.
    UfNounlink,
    /// The file has been archived.
    SfArchived,
    /// The file may not be changed, set by the super-user.
    SfImmutable,
    /// The file may only be appended to, set by the super-user.
    SfAppend,
    /// The file may not be removed or renamed, set by the super-user.
    SfNounlink,
    /// The file is a snapshot.
    SfSnapshot,
}

impl FileFlags {
    /// The name by which the configuration lists this flag.
    pub open spec fn spec_name(self) -> Seq<char> {
        match self {
            FileFlags::UfNodump => "UF_NODUMP"@,
            FileFlags::UfImmutable => "UF_IMMUTABLE"@,
            FileFlags::UfAppend => "UF_APPEND"@,
            FileFlags::UfOpaque => "UF_OPAQUE"@,
            FileFlags::UfNounlink => "UF_NOUNLINK"@,
            FileFlags::SfArchived => "SF_ARCHIVED"@,
            FileFlags::SfImmutable => "SF_IMMUTABLE"@,
            FileFlags::SfAppend => "SF_APPEND"@,
            FileFlags::SfNounlink => "SF_NOUNLINK"@,
            FileFlags::SfSnapshot => "SF_SNAPSHOT"@,
        }
    }

    /// Every flag, in declaration order.
    pub open spec fn spec_all() -> Seq<FileFlags> {
        seq![
            FileFlags::UfNodump,
            FileFlags::UfImmutable,
            FileFlags::UfAppend,
            FileFlags::UfOpaque,
            FileFlags::UfNounlink,
            FileFlags::SfArchived,
            FileFlags::SfImmutable,
            FileFlags::SfAppend,
            FileFlags::SfNounlink,
            FileFlags::SfSnapshot,
        ]
    }

    /// The name by which the configuration lists this flag.
    pub fn name(&self) -> (name: &'static str)
        ensures
            name@ == self.spec_name(),
    {
        match self {
            FileFlags::UfNodump => "UF_NODUMP",
            FileFlags::UfImmutable => "UF_IMMUTABLE",
            FileFlags::UfAppend => "UF_APPEND",
            FileFlags::UfOpaque => "UF_OPAQUE",
            FileFlags::UfNounlink => "UF_NOUNLINK",
            FileFlags::SfArchived => "SF_ARCHIVED",
            FileFlags::SfImmutable => "SF_IMMUTABLE",
            FileFlags::SfAppend => "SF_APPEND",
            FileFlags::SfNounlink => "SF_NOUNLINK",
            FileFlags::SfSnapshot => "SF_SNAPSHOT",
        }
    }

    /// Every flag, in declaration order.
    pub fn all() -> (all: Vec<FileFlags>)
        ensures
            all@ == Self::spec_all(),
            forall|f: FileFlags| all@.contains(f),
    {
        let all: Vec<FileFlags> = vec![
            FileFlags::UfNodump,
            FileFlags::UfImmutable,
            FileFlags::UfAppend,
            FileFlags::UfOpaque,
            FileFlags::UfNounlink,
            FileFlags::SfArchived,
            FileFlags::SfImmutable,
            FileFlags::SfAppend,
            FileFlags::SfNounlink,
            FileFlags::SfSnapshot,
        ];
        proof {
            assert(all@ =~= Self::spec_all());
            Self::lemma_all_complete();
        }
        all
    }

    /// The flag that the configuration lists as `name`, if it is one.
    pub fn from_name(name: &str) -> (found: Option<FileFlags>)
        ensures
            match found {
                Some(f) => f.spec_name() == name@,
                None => forall|f: FileFlags| f.spec_name() != name@,
            },
    {
        let wanted: String = name.to_owned();
        let all: Vec<FileFlags> = Self::all();
        let mut i: usize = 0;
        while i < all.len()
            invariant
                i <= all.len(),
                wanted@ == name@,
                forall|f: FileFlags| all@.contains(f),
                forall|j: int| 0 <= j < i ==> (#[trigger] all@[j]).spec_name() != name@,
            decreases all.len() - i,
        {
            let candidate: String = all[i].name().to_owned();
            if candidate == wanted {
                return Some(all[i]);
            }
            i += 1;
        }
        proof {
            assert forall|f: FileFlags| f.spec_name() != name@ by {
                assert(all@.contains(f));
                let j: int = choose|j: int| 0 <= j < all@.len() && all@[j] == f;
                assert(all@[j].spec_name() != name@);
            }
        }
        None
    }

    /// `spec_all` leaves no flag out.
    pub proof fn lemma_all_complete()
        ensures
            forall|f: FileFlags| Self::spec_all().contains(f),
    {
        let all = Self::spec_all();
        assert forall|f: FileFlags| all.contains(f) by {
            match f {
                FileFlags::UfNodump => assert(all[0] == f),
                FileFlags::UfImmutable => assert(all[1] == f),
                FileFlags::UfAppend => assert(all[2] == f),
                FileFlags::UfOpaque => assert(all[3] == f),
                FileFlags::UfNounlink => assert(all[4] == f),
                FileFlags::SfArchived => assert(all[5] == f),
                FileFlags::SfImmutable => assert(all[6] == f),
                FileFlags::SfAppend => assert(all[7] == f),
                FileFlags::SfNounlink => assert(all[8] == f),
                FileFlags::SfSnapshot => assert(all[9] == f),
            }
        }
    }

    /// Two different flags never share a name: names of equal length differ
    /// in their first or in their fourth character.
    pub proof fn lemma_names_distinct(a: FileFlags, b: FileFlags)
        requires
            a != b,
        ensures
            a.spec_name() != b.spec_name(),
    {
        reveal_strlit("UF_NODUMP");
        reveal_strlit("UF_IMMUTABLE");
        reveal_strlit("UF_APPEND");
        reveal_strlit("UF_OPAQUE");
        reveal_strlit("UF_NOUNLINK");
        reveal_strlit("SF_ARCHIVED");
        reveal_strlit("SF_IMMUTABLE");
        reveal_strlit("SF_APPEND");
        reveal_strlit("SF_NOUNLINK");
        reveal_strlit("SF_SNAPSHOT");
        let x = a.spec_name();
        let y = b.spec_name();
        assert(x.len() != y.len() || x[0] != y[0] || x[3] != y[3]);
    }
}

} // verus!
