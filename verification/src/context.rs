//! What a test case works with: its sandbox, the names in it, the principals
//! it has borrowed, and, for a serialized test case, the right to act as
//! another user or under another file-creation mask.
//!
//! A context creates nothing itself. It says which entry to create, under
//! which path and with which permission bits; the caller creates it.

use crate::config::auth::{AuthEntryView, Group};
use crate::file_type::{FileKind, FileType};
use crate::identity::{groups_view, target_identity, Identity, IdentitySwitch};
use crate::lanes::{Lane, LaneTicket};
use crate::names::{
    fit, fitted, generated_name, join, joined, lemma_fitted_name_is_ascii,
    lemma_generated_names_distinct, lemma_joined_distinct, name_for,
};
use crate::pool::{PoolExhausted, Principal, PrincipalPool};
use crate::umask::{installed, UmaskSwitch};
use vstd::prelude::*;
use vstd::string::*;
use vstd::utf8::is_ascii_chars;

verus! {

/// An entry to create.
#[derive(Debug, PartialEq, Eq)]
pub struct CreateRequest {
    /// Where to create it.
    pub path: String,
    /// What to create.
    pub file_type: FileType,
    /// The permission bits to create it with, or `None` for what the system
    /// gives.
    pub mode: Option<u32>,
}

/// `CreateRequest` with its strings as character sequences.
pub struct CreateRequestView {
    pub path: Seq<char>,
    pub file_type: FileKind,
    pub mode: Option<u32>,
}

impl View for CreateRequest {
    type V = CreateRequestView;

    open spec fn view(&self) -> CreateRequestView {
        CreateRequestView { path: self.path@, file_type: self.file_type@, mode: self.mode }
    }
}

/// The permission bits of a new entry: the ones asked for, else the default
/// of its kind.
pub open spec fn mode_of(asked: Option<u32>, kind: FileKind) -> Option<u32> {
    match asked {
        Some(mode) => Some(mode),
        None => kind.default_mode(),
    }
}

/// What is to be done when a test case is over.
#[derive(Debug, PartialEq, Eq)]
pub struct Teardown {
    /// The sandbox directory to remove, with all that is in it.
    pub sandbox: String,
    /// The principals that the test case had borrowed, oldest first.
    pub released: Vec<Principal>,
}

/// The state of one test case's context, as contracts see it.
pub struct ContextView {
    /// The sandbox directory.
    pub base_path: Seq<char>,
    /// How many names have been generated.
    pub file_counter: nat,
    /// The principals borrowed so far, oldest first.
    pub allocated_principals: Seq<AuthEntryView>,
    /// Whether the test case has the process to itself.
    pub serialized: bool,
    /// How long a nap takes, in nanoseconds.
    pub naptime: u64,
}

impl ContextView {
    /// The path that is generated next.
    pub open spec fn next_path(self) -> Seq<char> {
        joined(self.base_path, generated_name(self.file_counter))
    }

    /// This context after one more name has been generated.
    pub open spec fn after_name(self) -> ContextView {
        ContextView { file_counter: self.file_counter + 1, ..self }
    }

    /// This context after `principal` has been borrowed.
    pub open spec fn after_principal(self, principal: AuthEntryView) -> ContextView {
        ContextView {
            allocated_principals: self.allocated_principals.push(principal),
            ..self
        }
    }
}

/// The principals of `list`, with their names as character sequences.
pub open spec fn principals_view(list: Seq<Principal>) -> Seq<AuthEntryView> {
    list.map_values(|principal: Principal| principal@)
}

/// A copy of `list`.
fn copy_principals(list: &Vec<Principal>) -> (copy: Vec<Principal>)
    ensures
        principals_view(copy@) == principals_view(list@),
{
    let mut copy: Vec<Principal> = Vec::new();
    let mut i: usize = 0;
    while i < list.len()
        invariant
            i <= list.len(),
            principals_view(copy@) == principals_view(list@).take(i as int),
        decreases list.len() - i,
    {
        let ghost before = copy@;
        let entry: Principal = list[i].clone();
        copy.push(entry);
        assert(principals_view(copy@) =~= principals_view(before).push(entry@));
        assert(principals_view(list@).take(i + 1) =~= principals_view(list@).take(i as int).push(
            list@[i as int]@,
        ));
        i += 1;
    }
    assert(principals_view(list@).take(i as int) =~= principals_view(list@));
    copy
}

/// The context of a test case.
#[derive(Debug)]
pub struct TestContext {
    base_path: String,
    file_counter: u64,
    allocated_principals: Vec<Principal>,
    serialized: bool,
    naptime: u64,
}

impl View for TestContext {
    type V = ContextView;

    closed spec fn view(&self) -> ContextView {
        ContextView {
            base_path: self.base_path@,
            file_counter: self.file_counter as nat,
            allocated_principals: principals_view(self.allocated_principals@),
            serialized: self.serialized,
            naptime: self.naptime,
        }
    }
}

impl TestContext {
    /// A fresh context over the sandbox directory `base_path`, for the
    /// holder of `ticket`, with naps of `naptime` nanoseconds. It is
    /// serialized exactly when the ticket is for the exclusive lane.
    pub fn new(base_path: String, ticket: &LaneTicket, naptime: u64) -> (ctx: TestContext)
        ensures
            ctx@ == (ContextView {
                base_path: base_path@,
                file_counter: 0,
                allocated_principals: Seq::empty(),
                serialized: ticket.spec_lane() == Lane::Exclusive,
                naptime,
            }),
    {
        let serialized: bool = match ticket.lane() {
            Lane::Exclusive => true,
            Lane::Concurrent => false,
        };
        let ctx = TestContext {
            base_path,
            file_counter: 0,
            allocated_principals: Vec::new(),
            serialized,
            naptime,
        };
        assert(ctx@.allocated_principals =~= Seq::empty());
        ctx
    }

    /// The sandbox directory of this test case.
    pub fn base_path(&self) -> (path: &str)
        ensures
            path@ == self@.base_path,
    {
        self.base_path.as_str()
    }

    /// How long to block now, in nanoseconds, so that a filesystem with
    /// coarse timestamps shows the next change: the configured nap time.
    pub fn nap(&self) -> (nanos: u64)
        ensures
            nanos == self@.naptime,
    {
        self.naptime
    }

    /// How many names have been generated.
    pub fn file_counter(&self) -> (count: u64)
        ensures
            count == self@.file_counter,
    {
        self.file_counter
    }

    /// Whether the test case has the process to itself.
    pub fn is_serialized(&self) -> (serialized: bool)
        ensures
            serialized == self@.serialized,
    {
        self.serialized
    }

    /// The principals borrowed so far, oldest first.
    pub fn allocated_principals(&self) -> (list: &Vec<Principal>)
        ensures
            principals_view(list@) == self@.allocated_principals,
    {
        &self.allocated_principals
    }

    /// A path in the sandbox that no earlier call has handed out. Nothing is
    /// created.
    pub fn gen_path(&mut self) -> (path: String)
        requires
            old(self)@.file_counter < u64::MAX,
        ensures
            path@ == old(self)@.next_path(),
            final(self)@ == old(self)@.after_name(),
    {
        let name: String = name_for(self.file_counter);
        let path: String = join(self.base_path.as_str(), name.as_str());
        self.file_counter = self.file_counter + 1;
        path
    }

    /// The request for a new entry of kind `file_type` under a generated
    /// name, with the default permission bits of its kind.
    pub fn create(&mut self, file_type: FileType) -> (request: CreateRequest)
        requires
            old(self)@.file_counter < u64::MAX,
        ensures
            request@ == (CreateRequestView {
                path: old(self)@.next_path(),
                file_type: file_type@,
                mode: file_type@.default_mode(),
            }),
            final(self)@ == old(self)@.after_name(),
    {
        let path: String = self.gen_path();
        let mode: Option<u32> = file_type.default_mode();
        CreateRequest { path, file_type, mode }
    }

    /// The request for a new entry of kind `file_type` called `name`, with
    /// the default permission bits of its kind.
    pub fn create_named(&self, file_type: FileType, name: &str) -> (request: CreateRequest)
        ensures
            request@ == (CreateRequestView {
                path: joined(self@.base_path, name@),
                file_type: file_type@,
                mode: file_type@.default_mode(),
            }),
    {
        let path: String = join(self.base_path.as_str(), name);
        let mode: Option<u32> = file_type.default_mode();
        CreateRequest { path, file_type, mode }
    }

    /// The request for a new entry of kind `file_type` whose name is exactly
    /// `name_max` characters long: the next generated name, cut or filled
    /// with `x` to that length. The name is plain ASCII, so that it takes
    /// exactly `name_max` bytes too.
    pub fn create_name_max(&mut self, file_type: FileType, name_max: usize) -> (request:
        CreateRequest)
        requires
            old(self)@.file_counter < u64::MAX,
        ensures
            request@ == (CreateRequestView {
                path: joined(
                    old(self)@.base_path,
                    fitted(generated_name(old(self)@.file_counter), name_max as nat),
                ),
                file_type: file_type@,
                mode: file_type@.default_mode(),
            }),
            request@.path.len() == old(self)@.base_path.len() + 1 + name_max,
            is_ascii_chars(fitted(generated_name(old(self)@.file_counter), name_max as nat)),
            final(self)@ == old(self)@.after_name(),
    {
        proof {
            lemma_fitted_name_is_ascii(self@.file_counter, name_max as nat);
        }
        let name: String = name_for(self.file_counter);
        let long: String = fit(name.as_str(), name_max);
        let path: String = join(self.base_path.as_str(), long.as_str());
        self.file_counter = self.file_counter + 1;
        let mode: Option<u32> = file_type.default_mode();
        CreateRequest { path, file_type, mode }
    }

    /// Starts the description of a new entry of kind `file_type`.
    pub fn new_file(&self, file_type: FileType) -> (builder: FileBuilder)
        ensures
            builder@ == (FileBuilderView { file_type: file_type@, name: None, mode: None }),
    {
        FileBuilder::new(file_type)
    }

    /// Borrows the next principal of `pool` for this test case.
    ///
    /// Fails exactly when the pool has none left; then nothing changes.
    pub fn new_principal(&mut self, pool: &mut PrincipalPool) -> (r: Result<
        Principal,
        PoolExhausted,
    >)
        ensures
            match r {
                Ok(principal) => {
                    &&& old(pool)@.principals_taken < old(pool)@.roster.len()
                    &&& principal@ == old(pool)@.roster[old(pool)@.principals_taken as int]
                    &&& final(pool)@ == old(pool)@.after_principal()
                    &&& final(self)@ == old(self)@.after_principal(principal@)
                },
                Err(_) => {
                    &&& old(pool)@.principals_taken == old(pool)@.roster.len()
                    &&& final(pool)@ == old(pool)@
                    &&& final(self)@ == old(self)@
                },
            },
    {
        match pool.new_principal() {
            Ok(principal) => {
                self.allocated_principals.push(principal.clone());
                proof {
                    assert(final(self)@.allocated_principals =~= old(
                        self,
                    )@.allocated_principals.push(principal@));
                }
                Ok(principal)
            },
            Err(exhausted) => Err(exhausted),
        }
    }

    /// Takes the next group of `pool`.
    ///
    /// Fails exactly when the pool has none left; then nothing changes.
    pub fn new_group(&self, pool: &mut PrincipalPool) -> (r: Result<Group, PoolExhausted>)
        ensures
            match r {
                Ok(group) => {
                    &&& old(pool)@.groups_taken < old(pool)@.roster.len()
                    &&& group@ == old(pool)@.roster[old(pool)@.groups_taken as int].group
                    &&& final(pool)@ == old(pool)@.after_group()
                },
                Err(_) => {
                    &&& old(pool)@.groups_taken == old(pool)@.roster.len()
                    &&& final(pool)@ == old(pool)@
                },
            },
    {
        pool.new_group()
    }

    /// Ends the test case: names the sandbox to remove and lets go of the
    /// principals it had borrowed. What comes out does not depend on whether
    /// the test case passed or failed.
    pub fn teardown(self) -> (teardown: Teardown)
        ensures
            teardown.sandbox@ == self@.base_path,
            principals_view(teardown.released@) == self@.allocated_principals,
    {
        Teardown { sandbox: self.base_path, released: self.allocated_principals }
    }

    /// This context as that of a serialized test case, if it is one.
    pub fn into_serialized(self) -> (r: Result<SerializedTestContext, TestContext>)
        ensures
            match r {
                Ok(serialized) => self@.serialized && serialized@ == self@,
                Err(plain) => !self@.serialized && plain@ == self@,
            },
    {
        if self.serialized {
            Ok(SerializedTestContext { ctx: self })
        } else {
            Err(self)
        }
    }
}

/// The description of a new entry, built up step by step.
#[derive(Debug, PartialEq, Eq)]
pub struct FileBuilder {
    file_type: FileType,
    name: Option<String>,
    mode: Option<u32>,
}

/// `FileBuilder` with its strings as character sequences.
pub struct FileBuilderView {
    pub file_type: FileKind,
    pub name: Option<Seq<char>>,
    pub mode: Option<u32>,
}

impl View for FileBuilder {
    type V = FileBuilderView;

    closed spec fn view(&self) -> FileBuilderView {
        FileBuilderView {
            file_type: self.file_type@,
            name: match self.name {
                Some(name) => Some(name@),
                None => None,
            },
            mode: self.mode,
        }
    }
}

impl FileBuilder {
    /// The description of an entry of kind `file_type`, with no name and no
    /// permission bits chosen yet.
    pub fn new(file_type: FileType) -> (builder: FileBuilder)
        ensures
            builder@ == (FileBuilderView { file_type: file_type@, name: None, mode: None }),
    {
        FileBuilder { file_type, name: None, mode: None }
    }

    /// Chooses the permission bits.
    pub fn mode(self, mode: u32) -> (builder: FileBuilder)
        ensures
            builder@ == (FileBuilderView { mode: Some(mode), ..self@ }),
    {
        FileBuilder { file_type: self.file_type, name: self.name, mode: Some(mode) }
    }

    /// Chooses the name.
    pub fn name(self, name: &str) -> (builder: FileBuilder)
        ensures
            builder@ == (FileBuilderView { name: Some(name@), ..self@ }),
    {
        FileBuilder { file_type: self.file_type, name: Some(name.to_owned()), mode: self.mode }
    }

    /// The request for the entry described, in the sandbox of `ctx`: under
    /// the chosen name, or else under the next generated one; with the chosen
    /// permission bits, or else with the default of its kind.
    pub fn create(self, ctx: &mut TestContext) -> (request: CreateRequest)
        requires
            self@.name is None ==> old(ctx)@.file_counter < u64::MAX,
        ensures
            request@ == (CreateRequestView {
                path: match self@.name {
                    Some(name) => joined(old(ctx)@.base_path, name),
                    None => old(ctx)@.next_path(),
                },
                file_type: self@.file_type,
                mode: mode_of(self@.mode, self@.file_type),
            }),
            final(ctx)@ == match self@.name {
                Some(_) => old(ctx)@,
                None => old(ctx)@.after_name(),
            },
    {
        let path: String = match self.name {
            Some(name) => join(ctx.base_path(), name.as_str()),
            None => ctx.gen_path(),
        };
        let mode: Option<u32> = match self.mode {
            Some(mode) => Some(mode),
            None => self.file_type.default_mode(),
        };
        CreateRequest { path, file_type: self.file_type, mode }
    }
}

impl FileBuilder {
    /// The request for the entry described, in the sandbox of the serialized
    /// test case `ctx`: as `create` makes it for a plain context.
    pub fn create_serialized(self, ctx: &mut SerializedTestContext) -> (request: CreateRequest)
        requires
            self@.name is None ==> old(ctx)@.file_counter < u64::MAX,
        ensures
            request@ == (CreateRequestView {
                path: match self@.name {
                    Some(name) => joined(old(ctx)@.base_path, name),
                    None => old(ctx)@.next_path(),
                },
                file_type: self@.file_type,
                mode: mode_of(self@.mode, self@.file_type),
            }),
            final(ctx)@ == match self@.name {
                Some(_) => old(ctx)@,
                None => old(ctx)@.after_name(),
            },
    {
        let path: String = match self.name {
            Some(name) => join(ctx.base_path(), name.as_str()),
            None => ctx.gen_path(),
        };
        let mode: Option<u32> = match self.mode {
            Some(mode) => Some(mode),
            None => self.file_type.default_mode(),
        };
        CreateRequest { path, file_type: self.file_type, mode }
    }
}

/// The context of a serialized test case: one that has the process to itself
/// and may therefore change its identity and its file-creation mask.
#[derive(Debug)]
pub struct SerializedTestContext {
    ctx: TestContext,
}

impl View for SerializedTestContext {
    type V = ContextView;

    closed spec fn view(&self) -> ContextView {
        self.ctx@
    }
}

impl SerializedTestContext {
    #[verifier::type_invariant]
    spec fn inv(self) -> bool {
        self.ctx.serialized
    }

    /// A fresh context over the sandbox directory `base_path`, for the
    /// holder of `ticket`, with naps of `naptime` nanoseconds; none unless
    /// the ticket is for the exclusive lane.
    pub fn new(base_path: String, ticket: &LaneTicket, naptime: u64) -> (r: Option<
        SerializedTestContext,
    >)
        ensures
            r is Some <==> ticket.spec_lane() == Lane::Exclusive,
            r matches Some(ctx) ==> ctx@ == (ContextView {
                base_path: base_path@,
                file_counter: 0,
                allocated_principals: Seq::empty(),
                serialized: true,
                naptime,
            }),
    {
        match TestContext::new(base_path, ticket, naptime).into_serialized() {
            Ok(ctx) => Some(ctx),
            Err(_) => None,
        }
    }

    /// This context without the right to change identity or mask.
    pub fn as_plain(&self) -> (plain: &TestContext)
        ensures
            plain@ == self@,
            self@.serialized,
    {
        proof {
            use_type_invariant(self);
        }
        &self.ctx
    }

    /// The sandbox directory of this test case.
    pub fn base_path(&self) -> (path: &str)
        ensures
            path@ == self@.base_path,
    {
        self.ctx.base_path()
    }

    /// How long to block now, in nanoseconds: the configured nap time.
    pub fn nap(&self) -> (nanos: u64)
        ensures
            nanos == self@.naptime,
    {
        self.ctx.nap()
    }

    /// A path in the sandbox that no earlier call has handed out.
    pub fn gen_path(&mut self) -> (path: String)
        requires
            old(self)@.file_counter < u64::MAX,
        ensures
            path@ == old(self)@.next_path(),
            final(self)@ == old(self)@.after_name(),
    {
        proof {
            use_type_invariant(&*self);
        }
        let name: String = name_for(self.ctx.file_counter);
        let path: String = join(self.ctx.base_path.as_str(), name.as_str());
        self.ctx.file_counter = self.ctx.file_counter + 1;
        path
    }

    /// The request for a new entry of kind `file_type` under a generated
    /// name, with the default permission bits of its kind.
    pub fn create(&mut self, file_type: FileType) -> (request: CreateRequest)
        requires
            old(self)@.file_counter < u64::MAX,
        ensures
            request@ == (CreateRequestView {
                path: old(self)@.next_path(),
                file_type: file_type@,
                mode: file_type@.default_mode(),
            }),
            final(self)@ == old(self)@.after_name(),
    {
        let path: String = self.gen_path();
        let mode: Option<u32> = file_type.default_mode();
        CreateRequest { path, file_type, mode }
    }

    /// The request for a new entry of kind `file_type` whose name is exactly
    /// `name_max` characters long: the next generated name, cut or filled
    /// with `x` to that length. The name is plain ASCII, so that it takes
    /// exactly `name_max` bytes too.
    pub fn create_name_max(&mut self, file_type: FileType, name_max: usize) -> (request:
        CreateRequest)
        requires
            old(self)@.file_counter < u64::MAX,
        ensures
            request@ == (CreateRequestView {
                path: joined(
                    old(self)@.base_path,
                    fitted(generated_name(old(self)@.file_counter), name_max as nat),
                ),
                file_type: file_type@,
                mode: file_type@.default_mode(),
            }),
            request@.path.len() == old(self)@.base_path.len() + 1 + name_max,
            is_ascii_chars(fitted(generated_name(old(self)@.file_counter), name_max as nat)),
            final(self)@ == old(self)@.after_name(),
    {
        proof {
            use_type_invariant(&*self);
            lemma_fitted_name_is_ascii(self@.file_counter, name_max as nat);
        }
        let name: String = name_for(self.ctx.file_counter);
        let long: String = fit(name.as_str(), name_max);
        let path: String = join(self.ctx.base_path.as_str(), long.as_str());
        self.ctx.file_counter = self.ctx.file_counter + 1;
        let mode: Option<u32> = file_type.default_mode();
        CreateRequest { path, file_type, mode }
    }

    /// Borrows the next principal of `pool` for this test case.
    ///
    /// Fails exactly when the pool has none left; then nothing changes.
    pub fn new_principal(&mut self, pool: &mut PrincipalPool) -> (r: Result<
        Principal,
        PoolExhausted,
    >)
        ensures
            match r {
                Ok(principal) => {
                    &&& old(pool)@.principals_taken < old(pool)@.roster.len()
                    &&& principal@ == old(pool)@.roster[old(pool)@.principals_taken as int]
                    &&& final(pool)@ == old(pool)@.after_principal()
                    &&& final(self)@ == old(self)@.after_principal(principal@)
                },
                Err(_) => {
                    &&& old(pool)@.principals_taken == old(pool)@.roster.len()
                    &&& final(pool)@ == old(pool)@
                    &&& final(self)@ == old(self)@
                },
            },
    {
        proof {
            use_type_invariant(&*self);
        }
        match pool.new_principal() {
            Ok(principal) => {
                let mut list: Vec<Principal> = copy_principals(&self.ctx.allocated_principals);
                list.push(principal.clone());
                proof {
                    assert(principals_view(list@) =~= old(self)@.allocated_principals.push(
                        principal@,
                    ));
                }
                self.ctx.allocated_principals = list;
                Ok(principal)
            },
            Err(exhausted) => Err(exhausted),
        }
    }

    /// Plans acting as `principal`, with `groups` as supplementary groups,
    /// for a process whose identity is `current`.
    ///
    /// The switch that comes back holds the steps into the new identity and
    /// the steps back to `current`. The steps back are to be taken when the
    /// work is over, whether it succeeded or failed.
    pub fn as_user(&self, current: Identity, principal: &Principal, groups: Option<&Vec<u32>>) -> (switch:
        IdentitySwitch)
        ensures
            self@.serialized,
            switch.saved() == current@,
            switch.target() == target_identity(principal@, groups_view(groups)),
    {
        proof {
            use_type_invariant(self);
        }
        IdentitySwitch::new(current, principal, groups)
    }

    /// Plans work under the file-creation mask `mask`.
    ///
    /// The switch that comes back names the mask to install for the work,
    /// and, once it is told what the installation handed back, the mask to
    /// install when the work is over, whether it succeeded or failed.
    pub fn with_umask(&self, mask: u32) -> (switch: UmaskSwitch)
        ensures
            self@.serialized,
            switch.enter() == installed(mask),
            switch.saved() is None,
    {
        proof {
            use_type_invariant(self);
        }
        UmaskSwitch::new(mask)
    }

    /// Ends the test case: names the sandbox to remove and lets go of the
    /// principals it had borrowed.
    pub fn teardown(self) -> (teardown: Teardown)
        ensures
            teardown.sandbox@ == self@.base_path,
            principals_view(teardown.released@) == self@.allocated_principals,
    {
        self.ctx.teardown()
    }
}

/// Two paths generated in one sandbox at different counts are different:
/// whatever `gen_path` hands out, it has not handed out before.
pub proof fn lemma_generated_paths_fresh(base_path: Seq<char>, earlier: nat, later: nat)
    requires
        earlier < later,
    ensures
        joined(base_path, generated_name(earlier)) != joined(base_path, generated_name(later)),
{
    lemma_generated_names_distinct(earlier, later);
    lemma_joined_distinct(base_path, generated_name(earlier), generated_name(later));
}

} // verus!
