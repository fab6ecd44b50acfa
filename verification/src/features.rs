//! Optional capabilities that a filesystem under test may have.

use vstd::prelude::*;
use vstd::string::*;

verus! {

/// A capability that not every filesystem offers. A test case that needs one
/// runs only when the configuration enables it.
#[derive(Clone, Copy, Debug, PartialEq, Eq, Hash, Structural)]
pub enum FileSystemFeature {
    /// The `chflags` syscall is available.
    Chflags,
    /// NFSv4 style access control lists are supported.
    Nfsv4Acls,
    /// The `posix_fallocate` syscall is available.
    PosixFallocate,
    /// `rename` changes `st_ctime`.
    RenameCtime,
    /// `struct stat` has an `st_birthtime` field.
    StatStBirthtime,
    /// The `SF_SNAPSHOT` flag can be set with `chflags`.
    ChflagsSfSnapshot,
    /// `UTIME_NOW` is understood by `utimensat`.
    UtimeNow,
    /// The `utimensat` syscall is available.
    Utimensat,
}

impl FileSystemFeature {
    /// The key under which the configuration enables this feature.
    pub open spec fn spec_name(self) -> Seq<char> {
        match self {
            FileSystemFeature::Chflags => "chflags"@,
            FileSystemFeature::Nfsv4Acls => "nfsv4_acls"@,
            FileSystemFeature::PosixFallocate => "posix_fallocate"@,
            FileSystemFeature::RenameCtime => "rename_ctime"@,
            FileSystemFeature::StatStBirthtime => "stat_st_birthtime"@,
            FileSystemFeature::ChflagsSfSnapshot => "chflags_sf_snapshot"@,
            FileSystemFeature::UtimeNow => "utime_now"@,
            FileSystemFeature::Utimensat => "utimensat"@,
        }
    }

    /// Every feature, in declaration order.
    pub open spec fn spec_all() -> Seq<FileSystemFeature> {
        seq![
            FileSystemFeature::Chflags,
            FileSystemFeature::Nfsv4Acls,
            FileSystemFeature::PosixFallocate,
            FileSystemFeature::RenameCtime,
            FileSystemFeature::StatStBirthtime,
            FileSystemFeature::ChflagsSfSnapshot,
            FileSystemFeature::UtimeNow,
            FileSystemFeature::Utimensat,
        ]
    }

    /// The key under which the configuration enables this feature.
    pub fn name(&self) -> (name: &'static str)
        ensures
            name@ == self.spec_name(),
    {
        match self {
            FileSystemFeature::Chflags => "chflags",
            FileSystemFeature::Nfsv4Acls => "nfsv4_acls",
            FileSystemFeature::PosixFallocate => "posix_fallocate",
            FileSystemFeature::RenameCtime => "rename_ctime",
            FileSystemFeature::StatStBirthtime => "stat_st_birthtime",
            FileSystemFeature::ChflagsSfSnapshot => "chflags_sf_snapshot",
            FileSystemFeature::UtimeNow => "utime_now",
            FileSystemFeature::Utimensat => "utimensat",
        }
    }

    /// Every feature, in declaration order.
    pub fn all() -> (all: Vec<FileSystemFeature>)
        ensures
            all@ == Self::spec_all(),
            forall|f: FileSystemFeature| all@.contains(f),
    {
        let all: Vec<FileSystemFeature> = vec![
            FileSystemFeature::Chflags,
            FileSystemFeature::Nfsv4Acls,
            FileSystemFeature::PosixFallocate,
            FileSystemFeature::RenameCtime,
            FileSystemFeature::StatStBirthtime,
            FileSystemFeature::ChflagsSfSnapshot,
            FileSystemFeature::UtimeNow,
            FileSystemFeature::Utimensat,
        ];
        proof {
            assert(all@ =~= Self::spec_all());
            Self::lemma_all_complete();
        }
        all
    }

    /// The feature that the configuration key `name` enables, if it is one.
    pub fn from_name(name: &str) -> (found: Option<FileSystemFeature>)
        ensures
            match found {
                Some(f) => f.spec_name() == name@,
                None => forall|f: FileSystemFeature| f.spec_name() != name@,
            },
    {
        let wanted: String = name.to_owned();
        let all: Vec<FileSystemFeature> = Self::all();
        let mut i: usize = 0;
        while i < all.len()
            invariant
                i <= all.len(),
                wanted@ == name@,
                forall|f: FileSystemFeature| all@.contains(f),
                forall|j: int| 0 <= j < i ==> (#[trigger] all@[j]).spec_name() != name@,
            decreases all.len() - i,
        {
            let candidate: String = all[i].name().to_owned();
            if candidate == wanted {
                return Some(all[i]);
            }
            i += 1;
        }
        proof {
            assert forall|f: FileSystemFeature| f.spec_name() != name@ by {
                assert(all@.contains(f));
                let j: int = choose|j: int| 0 <= j < all@.len() && all@[j] == f;
                assert(all@[j].spec_name() != name@);
            }
        }
        None
    }

    /// `spec_all` leaves no feature out.
    pub proof fn lemma_all_complete()
        ensures
            forall|f: FileSystemFeature| Self::spec_all().contains(f),
    {
        let all = Self::spec_all();
        assert forall|f: FileSystemFeature| all.contains(f) by {
            match f {
                FileSystemFeature::Chflags => assert(all[0] == f),
                FileSystemFeature::Nfsv4Acls => assert(all[1] == f),
                FileSystemFeature::PosixFallocate => assert(all[2] == f),
                FileSystemFeature::RenameCtime => assert(all[3] == f),
                FileSystemFeature::StatStBirthtime => assert(all[4] == f),
                FileSystemFeature::ChflagsSfSnapshot => assert(all[5] == f),
                FileSystemFeature::UtimeNow => assert(all[6] == f),
                FileSystemFeature::Utimensat => assert(all[7] == f),
            }
        }
    }

    /// Two different features never share a configuration key.
    pub proof fn lemma_names_distinct(a: FileSystemFeature, b: FileSystemFeature)
        requires
            a != b,
        ensures
            a.spec_name() != b.spec_name(),
    {
        reveal_strlit("chflags");
        reveal_strlit("nfsv4_acls");
        reveal_strlit("posix_fallocate");
        reveal_strlit("rename_ctime");
        reveal_strlit("stat_st_birthtime");
        reveal_strlit("chflags_sf_snapshot");
        reveal_strlit("utime_now");
        reveal_strlit("utimensat");
        if a.spec_name().len() == b.spec_name().len() {
            // Only `utime_now` and `utimensat` have the same length.
            assert("utime_now"@[5] != "utimensat"@[5]);
        }
    }
}

} // verus!
