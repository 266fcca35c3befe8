//! The deferred command surface: batch operations captured as values.
//!
//! A batch call on this surface does not touch the registry; it is packaged
//! as a command and appended to an ordered queue.  The host application
//! drains the queue at a point it controls, replaying every captured
//! operation against the registry in enqueue (FIFO) order.

use vstd::prelude::*;

use crate::batch::{init_batch, insert_batch, spec_init_batch, spec_insert_batch, MAX_ARITY};
use crate::registry::{Registry, RegistryModel, ResourceSpec};
use crate::tuples::{InitResources, InsertResources, ResourceTuple};

verus! {

/// Model of one deferred command: which batch operation was captured, and
/// the elements it will run over.
pub ghost enum CommandModel {
    Init(Seq<ResourceSpec>),
    Insert(Seq<ResourceSpec>),
}

/// The registry contents after applying one deferred command.
pub open spec fn spec_apply_command(m: RegistryModel, c: CommandModel) -> RegistryModel {
    match c {
        CommandModel::Init(s) => spec_init_batch(m, s),
        CommandModel::Insert(s) => spec_insert_batch(m, s),
    }
}

/// The registry contents after applying the commands in order, oldest first.
pub open spec fn spec_apply_commands(m: RegistryModel, cs: Seq<CommandModel>) -> RegistryModel
    decreases cs.len(),
{
    if cs.len() == 0 {
        m
    } else {
        spec_apply_commands(spec_apply_command(m, cs[0]), cs.drop_first())
    }
}

/// Deferred command capturing a batch-init over a group of resources.
pub struct InitResourcesCommand {
    specs: Vec<ResourceSpec>,
}

impl View for InitResourcesCommand {
    type V = Seq<ResourceSpec>;

    closed spec fn view(&self) -> Seq<ResourceSpec> {
        self.specs@
    }
}

impl InitResourcesCommand {
    /// A captured batch stays within the arity bounds of the batch surface.
    #[verifier::type_invariant]
    spec fn arity_wf(self) -> bool {
        1 <= self@.len() <= MAX_ARITY
    }

    /// Captures a batch-init over the group as a value to be replayed later.
    pub fn new<R: InitResources>(resources: R) -> (c: InitResourcesCommand)
        ensures
            c@ == resources.elems(),
    {
        proof {
            resources.arity_in_range();
        }
        InitResourcesCommand { specs: resources.into_specs() }
    }

    /// Applies the captured batch-init against the registry.
    pub fn write(self, registry: &mut Registry)
        requires
            old(registry).wf(),
        ensures
            final(registry).wf(),
            final(registry)@ == spec_init_batch(old(registry)@, self@),
    {
        proof {
            use_type_invariant(&self);
        }
        let _ = init_batch(registry, &self.specs);
    }
}

/// Deferred command capturing a batch-insert of a group of resources.
pub struct InsertResourcesCommand {
    specs: Vec<ResourceSpec>,
}

impl View for InsertResourcesCommand {
    type V = Seq<ResourceSpec>;

    closed spec fn view(&self) -> Seq<ResourceSpec> {
        self.specs@
    }
}

impl InsertResourcesCommand {
    /// A captured batch stays within the arity bounds of the batch surface.
    #[verifier::type_invariant]
    spec fn arity_wf(self) -> bool {
        1 <= self@.len() <= MAX_ARITY
    }

    /// Captures a batch-insert of the group as a value to be replayed later.
    pub fn new<R: InsertResources>(resources: R) -> (c: InsertResourcesCommand)
        ensures
            c@ == resources.elems(),
    {
        proof {
            resources.arity_in_range();
        }
        InsertResourcesCommand { specs: resources.into_specs() }
    }

    /// Applies the captured batch-insert against the registry.
    pub fn write(self, registry: &mut Registry)
        requires
            old(registry).wf(),
        ensures
            final(registry).wf(),
            final(registry)@ == spec_insert_batch(old(registry)@, self@),
    {
        proof {
            use_type_invariant(&self);
        }
        insert_batch(registry, &self.specs);
    }
}

/// One queued command of either kind.
pub enum QueuedCommand {
    Init(InitResourcesCommand),
    Insert(InsertResourcesCommand),
}

impl View for QueuedCommand {
    type V = CommandModel;

    open spec fn view(&self) -> CommandModel {
        match self {
            QueuedCommand::Init(c) => CommandModel::Init(c@),
            QueuedCommand::Insert(c) => CommandModel::Insert(c@),
        }
    }
}

/// The deferred command queue.  Its view is the sequence of captured
/// operations, oldest first; nothing is applied until `apply` runs.
pub struct CommandQueue {
    queue: Vec<QueuedCommand>,
}

impl View for CommandQueue {
    type V = Seq<CommandModel>;

    closed spec fn view(&self) -> Seq<CommandModel> {
        self.queue@.map_values(|c: QueuedCommand| c@)
    }
}

impl CommandQueue {
    /// Creates an empty queue.
    pub fn new() -> (q: CommandQueue)
        ensures
            q@ == Seq::<CommandModel>::empty(),
    {
        let q = CommandQueue { queue: Vec::new() };
        proof {
            assert(q@ =~= Seq::<CommandModel>::empty());
        }
        q
    }

    /// How many commands are waiting to be applied.
    pub fn len(&self) -> (n: usize)
        ensures
            n == self@.len(),
    {
        self.queue.len()
    }

    /// Enqueues a batch-init of the group; the registry is untouched by this
    /// call, and the operation runs only when the queue is drained.
    pub fn init_resources<R: InitResources>(&mut self, resources: R)
        ensures
            final(self)@ == old(self)@.push(CommandModel::Init(resources.elems())),
    {
        let c = InitResourcesCommand::new(resources);
        self.queue.push(QueuedCommand::Init(c));
        proof {
            assert(self@ =~= old(self)@.push(CommandModel::Init(resources.elems())));
        }
    }

    /// Enqueues a batch-insert of the group; the registry is untouched by
    /// this call, and the operation runs only when the queue is drained.
    pub fn insert_resources<R: InsertResources>(&mut self, resources: R)
        ensures
            final(self)@ == old(self)@.push(CommandModel::Insert(resources.elems())),
    {
        let c = InsertResourcesCommand::new(resources);
        self.queue.push(QueuedCommand::Insert(c));
        proof {
            assert(self@ =~= old(self)@.push(CommandModel::Insert(resources.elems())));
        }
    }

    /// Drains the queue: applies every queued command against the registry,
    /// oldest first, and leaves the queue empty.
    pub fn apply(&mut self, registry: &mut Registry)
        requires
            old(registry).wf(),
        ensures
            final(self)@ == Seq::<CommandModel>::empty(),
            final(registry).wf(),
            final(registry)@ == spec_apply_commands(old(registry)@, old(self)@),
    {
        let ghost m0 = registry@;
        let ghost q0 = self@;
        while self.queue.len() > 0
            invariant
                registry.wf(),
                spec_apply_commands(registry@, self@) == spec_apply_commands(m0, q0),
            decreases self.queue.len(),
        {
            let ghost before_q = self.queue@;
            let ghost before_m = registry@;
            let c = self.queue.remove(0);
            proof {
                assert(self.queue@ =~= before_q.drop_first());
                assert(self@ =~= before_q.map_values(|qc: QueuedCommand| qc@).drop_first());
            }
            match c {
                QueuedCommand::Init(cmd) => {
                    cmd.write(registry);
                },
                QueuedCommand::Insert(cmd) => {
                    cmd.write(registry);
                },
            }
            proof {
                assert(before_q.map_values(|qc: QueuedCommand| qc@)[0] == before_q[0]@);
                assert(registry@ == spec_apply_command(
                    before_m,
                    before_q.map_values(|qc: QueuedCommand| qc@)[0],
                ));
            }
        }
        proof {
            assert(self@ =~= Seq::<CommandModel>::empty());
        }
    }
}

} // verus!
