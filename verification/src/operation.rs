//! The fixed table of remote operations and the paths they are reached by.

use crate::text::{same_text, strip_slash};
use vstd::prelude::*;

verus! {

/// One named remote call.
#[derive(Clone, Copy, Debug, PartialEq, Eq, Hash, Structural)]
pub enum Operation {
    OnchainReceive,
    OnchainSend,
    Bolt11Receive,
    Bolt11Send,
    Bolt12Receive,
    Bolt12Send,
    OpenChannel,
    CloseChannel,
    ListChannels,
}

// The paths, as they stand in an address and in the table.

pub const ONCHAIN_RECEIVE_PATH: &'static str = "OnchainReceive";

pub const ONCHAIN_SEND_PATH: &'static str = "OnchainSend";

pub const BOLT11_RECEIVE_PATH: &'static str = "Bolt11Receive";

pub const BOLT11_SEND_PATH: &'static str = "Bolt11Send";

pub const BOLT12_RECEIVE_PATH: &'static str = "Bolt12Receive";

pub const BOLT12_SEND_PATH: &'static str = "Bolt12Send";

pub const OPEN_CHANNEL_PATH: &'static str = "OpenChannel";

pub const CLOSE_CHANNEL_PATH: &'static str = "CloseChannel";

pub const LIST_CHANNELS_PATH: &'static str = "ListChannels";

/// Every operation, in the order of the table.
pub open spec fn spec_operations() -> Seq<Operation> {
    seq![
        Operation::OnchainReceive,
        Operation::OnchainSend,
        Operation::Bolt11Receive,
        Operation::Bolt11Send,
        Operation::Bolt12Receive,
        Operation::Bolt12Send,
        Operation::OpenChannel,
        Operation::CloseChannel,
        Operation::ListChannels,
    ]
}

impl Operation {
    /// The path under which the operation is registered.
    pub open spec fn spec_path(self) -> Seq<char> {
        match self {
            Operation::OnchainReceive => ONCHAIN_RECEIVE_PATH@,
            Operation::OnchainSend => ONCHAIN_SEND_PATH@,
            Operation::Bolt11Receive => BOLT11_RECEIVE_PATH@,
            Operation::Bolt11Send => BOLT11_SEND_PATH@,
            Operation::Bolt12Receive => BOLT12_RECEIVE_PATH@,
            Operation::Bolt12Send => BOLT12_SEND_PATH@,
            Operation::OpenChannel => OPEN_CHANNEL_PATH@,
            Operation::CloseChannel => CLOSE_CHANNEL_PATH@,
            Operation::ListChannels => LIST_CHANNELS_PATH@,
        }
    }

    /// The operation registered under `path`, if there is one.
    pub open spec fn spec_from_path(path: Seq<char>) -> Option<Operation> {
        if exists|op: Operation| op.spec_path() == path {
            Some(choose|op: Operation| op.spec_path() == path)
        } else {
            None
        }
    }

    /// The request target that reaches the operation on a server: one
    /// slash, then the path.
    pub open spec fn spec_target(self) -> Seq<char> {
        seq!['/'] + self.spec_path()
    }

    /// The operation that a request target reaches, if there is one.
    pub open spec fn spec_from_target(target: Seq<char>) -> Option<Operation> {
        if target.len() > 0 && target[0] == '/' {
            Operation::spec_from_path(target.drop_first())
        } else {
            None
        }
    }

    pub fn path(self) -> (path: &'static str)
        ensures
            path@ == self.spec_path(),
    {
        match self {
            Operation::OnchainReceive => ONCHAIN_RECEIVE_PATH,
            Operation::OnchainSend => ONCHAIN_SEND_PATH,
            Operation::Bolt11Receive => BOLT11_RECEIVE_PATH,
            Operation::Bolt11Send => BOLT11_SEND_PATH,
            Operation::Bolt12Receive => BOLT12_RECEIVE_PATH,
            Operation::Bolt12Send => BOLT12_SEND_PATH,
            Operation::OpenChannel => OPEN_CHANNEL_PATH,
            Operation::CloseChannel => CLOSE_CHANNEL_PATH,
            Operation::ListChannels => LIST_CHANNELS_PATH,
        }
    }

    /// The whole table.
    pub fn all() -> (table: [Operation; 9])
        ensures
            table@ == spec_operations(),
    {
        [
            Operation::OnchainReceive,
            Operation::OnchainSend,
            Operation::Bolt11Receive,
            Operation::Bolt11Send,
            Operation::Bolt12Receive,
            Operation::Bolt12Send,
            Operation::OpenChannel,
            Operation::CloseChannel,
            Operation::ListChannels,
        ]
    }

    /// Looks `path` up in the table: an exact, case-sensitive match of the
    /// whole string.
    pub fn from_path(path: &str) -> (found: Option<Operation>)
        ensures
            found == Operation::spec_from_path(path@),
            found matches Some(op) ==> op.spec_path() == path@,
            found is None ==> forall|op: Operation| op.spec_path() != path@,
    {
        let table = Operation::all();
        let mut i: usize = 0;
        while i < 9
            invariant
                i <= 9,
                table@ == spec_operations(),
                forall|j: int| 0 <= j < i ==> spec_operations()[j].spec_path() != path@,
            decreases 9 - i,
        {
            let op = table[i];
            if same_text(path, op.path()) {
                proof {
                    lemma_from_path_exact(path@, op);
                }
                return Some(op);
            }
            i += 1;
        }
        proof {
            assert forall|op: Operation| op.spec_path() != path@ by {
                lemma_table_complete(op);
            }
        }
        None
    }

    /// Looks a request target up: one leading slash, then a path of the
    /// table. Nothing else is taken off or normalised.
    pub fn from_target(target: &str) -> (found: Option<Operation>)
        ensures
            found == Operation::spec_from_target(target@),
            found matches Some(op) ==> op.spec_target() == target@,
            found is None ==> forall|op: Operation| op.spec_target() != target@,
    {
        let found = match strip_slash(target) {
            Some(path) => {
                assert(target@.drop_first() =~= path@);
                Operation::from_path(path)
            },
            None => None,
        };
        proof {
            assert forall|op: Operation|
                (Operation::spec_from_target(target@) == Some(op)) == (#[trigger] op.spec_target()
                    == target@) by {
                lemma_from_target_exact(target@, op);
            }
        }
        found
    }
}

/// Every operation stands in the table.
pub proof fn lemma_table_complete(op: Operation)
    ensures
        exists|i: int| 0 <= i < 9 && spec_operations()[i] == op,
{
    match op {
        Operation::OnchainReceive => assert(spec_operations()[0] == op),
        Operation::OnchainSend => assert(spec_operations()[1] == op),
        Operation::Bolt11Receive => assert(spec_operations()[2] == op),
        Operation::Bolt11Send => assert(spec_operations()[3] == op),
        Operation::Bolt12Receive => assert(spec_operations()[4] == op),
        Operation::Bolt12Send => assert(spec_operations()[5] == op),
        Operation::OpenChannel => assert(spec_operations()[6] == op),
        Operation::CloseChannel => assert(spec_operations()[7] == op),
        Operation::ListChannels => assert(spec_operations()[8] == op),
    }
}

/// No two operations share a path.
pub proof fn lemma_paths_unique(a: Operation, b: Operation)
    requires
        a.spec_path() == b.spec_path(),
    ensures
        a == b,
{
    reveal_strlit("OnchainReceive");
    reveal_strlit("OnchainSend");
    reveal_strlit("Bolt11Receive");
    reveal_strlit("Bolt11Send");
    reveal_strlit("Bolt12Receive");
    reveal_strlit("Bolt12Send");
    reveal_strlit("OpenChannel");
    reveal_strlit("CloseChannel");
    reveal_strlit("ListChannels");
    if a != b {
        let x = a.spec_path();
        let y = b.spec_path();
        assert(x.len() == y.len());
        assert(x[0] == y[0]);
        assert(x[1] == y[1]);
        assert(x[5] == y[5]);
    }
}

/// A path finds an operation exactly when it is that operation's path.
pub proof fn lemma_from_path_exact(path: Seq<char>, op: Operation)
    ensures
        Operation::spec_from_path(path) == Some(op) <==> op.spec_path() == path,
{
    if op.spec_path() == path {
        let chosen = choose|o: Operation| o.spec_path() == path;
        lemma_paths_unique(chosen, op);
    }
}

/// A request target finds an operation exactly when it is that operation's
/// target.
pub proof fn lemma_from_target_exact(target: Seq<char>, op: Operation)
    ensures
        Operation::spec_from_target(target) == Some(op) <==> op.spec_target() == target,
{
    if target.len() > 0 && target[0] == '/' {
        lemma_from_path_exact(target.drop_first(), op);
        assert(target =~= seq!['/'] + target.drop_first());
        assert((seq!['/'] + op.spec_path()).drop_first() =~= op.spec_path());
    } else {
        assert(op.spec_target()[0] == '/');
    }
}

} // verus!
