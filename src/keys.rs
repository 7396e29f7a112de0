use vstd::prelude::*;
use crate::zone::KeySpec;

verus! {

/// One step of provisioning a zone's keys, in the order they are taken.
#[derive(Clone, Copy, Debug, PartialEq, Eq, Structural)]
pub enum KeyOp {
    /// Load the key at this index as a signer and add it as a zone-signing key.
    AddZoneSigningKey(usize),
    /// Load the key at this index as a signer, wrap its public key in a
    /// host-usage key record and add it as an update-authorization key.
    AddUpdateAuthKey(usize),
    /// Sign the zone.
    SecureZone,
}

/// The steps for the key at index `i`: zone signing first, then update
/// authorization, each where the key is marked for it.
pub open spec fn ops_for_key(k: KeySpec, i: int) -> Seq<KeyOp> {
    (if k.is_zone_signing_key {
        seq![KeyOp::AddZoneSigningKey(i as usize)]
    } else {
        seq![]
    }) + (if k.is_zone_update_auth {
        seq![KeyOp::AddUpdateAuthKey(i as usize)]
    } else {
        seq![]
    })
}

/// The steps for the first `n` keys, in declaration order.
pub open spec fn key_ops(keys: Seq<KeySpec>, n: nat) -> Seq<KeyOp>
    decreases n,
{
    if n == 0 {
        seq![]
    } else {
        key_ops(keys, (n - 1) as nat) + ops_for_key(keys[n - 1], n - 1)
    }
}

/// The whole provisioning of a zone: nothing where signing is off; else every
/// key's steps, then signing once.
pub open spec fn provisioning(keys: Seq<KeySpec>, enabled: bool) -> Seq<KeyOp> {
    if enabled {
        key_ops(keys, keys.len()) + seq![KeyOp::SecureZone]
    } else {
        seq![]
    }
}

/// Lists the provisioning steps for a zone's keys.
pub fn key_plan(keys: &Vec<KeySpec>, enabled: bool) -> (r: Vec<KeyOp>)
    ensures
        r@ == provisioning(keys@, enabled),
{
    let mut ops: Vec<KeyOp> = Vec::new();
    if !enabled {
        return ops;
    }
    let mut i: usize = 0;
    while i < keys.len()
        invariant
            0 <= i <= keys@.len(),
            ops@ == key_ops(keys@, i as nat),
        decreases keys@.len() - i,
    {
        let k = &keys[i];
        if k.is_zone_signing_key {
            ops.push(KeyOp::AddZoneSigningKey(i));
        }
        if k.is_zone_update_auth {
            ops.push(KeyOp::AddUpdateAuthKey(i));
        }
        proof {
            assert(ops@ =~= key_ops(keys@, i as nat) + ops_for_key(keys@[i as int], i as int));
        }
        i = i + 1;
    }
    ops.push(KeyOp::SecureZone);
    ops
}

proof fn lemma_key_ops_no_secure(keys: Seq<KeySpec>, n: nat)
    ensures
        forall|j: int| 0 <= j < key_ops(keys, n).len() ==> key_ops(keys, n)[j] != KeyOp::SecureZone,
    decreases n,
{
    if n > 0 {
        lemma_key_ops_no_secure(keys, (n - 1) as nat);
        let a = key_ops(keys, (n - 1) as nat);
        let b = ops_for_key(keys[n - 1], n - 1);
        assert forall|j: int| 0 <= j < (a + b).len() implies (a + b)[j] != KeyOp::SecureZone by {
            if j >= a.len() {
                assert((a + b)[j] == b[j - a.len()]);
            }
        }
    }
}

/// Signing is triggered exactly once, after every key is registered, and
/// nothing happens at all where signing is off.
pub proof fn lemma_secure_once_and_last(keys: Seq<KeySpec>, enabled: bool)
    ensures
        enabled ==> {
            let ops = provisioning(keys, enabled);
            &&& ops.len() > 0
            &&& ops.last() == KeyOp::SecureZone
            &&& forall|j: int| 0 <= j < ops.len() - 1 ==> ops[j] != KeyOp::SecureZone
        },
        !enabled ==> provisioning(keys, enabled).len() == 0,
{
    lemma_key_ops_no_secure(keys, keys.len());
    if enabled {
        let a = key_ops(keys, keys.len());
        let ops = a + seq![KeyOp::SecureZone];
        assert forall|j: int| 0 <= j < ops.len() - 1 implies ops[j] != KeyOp::SecureZone by {
            assert(ops[j] == a[j]);
        }
    }
}

/// Where provisioning a zone's keys stands.
#[derive(Clone, Copy, Debug, PartialEq, Eq, Structural)]
pub enum ProvisionStatus {
    /// The step at this index is to be taken next.
    Running(usize),
    /// Every step succeeded.
    Finished,
    /// The step at this index failed; nothing after it is taken.
    Aborted(usize),
}

/// The status after the current step ended, well or not, among `n` steps.
pub open spec fn next_status(s: ProvisionStatus, ok: bool, n: nat) -> ProvisionStatus {
    match s {
        ProvisionStatus::Running(i) => if !ok {
            ProvisionStatus::Aborted(i)
        } else if i + 1 >= n {
            ProvisionStatus::Finished
        } else {
            ProvisionStatus::Running((i + 1) as usize)
        },
        _ => s,
    }
}

/// The status reached from `s` as the steps end with `outcomes` in turn.
pub open spec fn status_after(s: ProvisionStatus, outcomes: Seq<bool>, n: nat) -> ProvisionStatus
    decreases outcomes.len(),
{
    if outcomes.len() == 0 {
        s
    } else {
        status_after(next_status(s, outcomes[0], n), outcomes.drop_first(), n)
    }
}

/// Provisioning of one zone's keys, one step at a time.
#[derive(Clone, Debug)]
pub struct Provisioning {
    pub ops: Vec<KeyOp>,
    pub status: ProvisionStatus,
}

impl Provisioning {
    /// The status only points at steps that exist.
    pub open spec fn wf(&self) -> bool {
        self.status matches ProvisionStatus::Running(i) ==> i < self.ops@.len()
    }

    /// Starts provisioning the keys of a zone.
    pub fn new(keys: &Vec<KeySpec>, enabled: bool) -> (r: Provisioning)
        ensures
            r.wf(),
            r.ops@ == provisioning(keys@, enabled),
            r.status == if r.ops@.len() == 0 {
                ProvisionStatus::Finished
            } else {
                ProvisionStatus::Running(0)
            },
    {
        let ops = key_plan(keys, enabled);
        let status = if ops.len() == 0 {
            ProvisionStatus::Finished
        } else {
            ProvisionStatus::Running(0)
        };
        Provisioning { ops, status }
    }

    /// The step to take now, if any.
    pub fn current(&self) -> (r: Option<KeyOp>)
        requires
            self.wf(),
        ensures
            r == match self.status {
                ProvisionStatus::Running(i) => Some(self.ops@[i as int]),
                _ => None::<KeyOp>,
            },
    {
        match self.status {
            ProvisionStatus::Running(i) => Some(self.ops[i]),
            _ => None,
        }
    }

    /// Records how the current step ended.
    pub fn record(&mut self, ok: bool)
        requires
            old(self).wf(),
        ensures
            final(self).wf(),
            final(self).ops@ == old(self).ops@,
            final(self).status == next_status(old(self).status, ok, old(self).ops@.len()),
    {
        let n = self.ops.len();
        self.status = match self.status {
            ProvisionStatus::Running(i) => if !ok {
                ProvisionStatus::Aborted(i)
            } else if i >= n - 1 {
                ProvisionStatus::Finished
            } else {
                ProvisionStatus::Running(i + 1)
            },
            s => s,
        };
    }
}

proof fn lemma_running_after(i: nat, outcomes: Seq<bool>, n: nat)
    requires
        i < n,
        n <= usize::MAX,
    ensures
        status_after(ProvisionStatus::Running(i as usize), outcomes, n) matches ProvisionStatus::Running(k)
            ==> k == i + outcomes.len() && k < n && forall|j: int| 0 <= j < outcomes.len() ==> outcomes[j],
        status_after(ProvisionStatus::Running(i as usize), outcomes, n) == ProvisionStatus::Finished
            ==> outcomes.len() >= n - i && forall|j: int| 0 <= j < n - i ==> outcomes[j],
    decreases outcomes.len(),
{
    if outcomes.len() > 0 {
        let rest = outcomes.drop_first();
        if outcomes[0] && i + 1 < n {
            lemma_running_after(i + 1, rest, n);
            assert forall|j: int| 0 < j < outcomes.len() implies outcomes[j] == rest[j - 1] by {}
        } else {
            lemma_terminal_after(next_status(ProvisionStatus::Running(i as usize), outcomes[0], n), rest, n);
        }
    }
}

proof fn lemma_terminal_after(s: ProvisionStatus, outcomes: Seq<bool>, n: nat)
    requires
        !(s is Running),
    ensures
        status_after(s, outcomes, n) == s,
    decreases outcomes.len(),
{
    if outcomes.len() > 0 {
        lemma_terminal_after(s, outcomes.drop_first(), n);
    }
}

/// Provisioning stops at the first step that fails, and the zone is signed
/// only once every key step before signing has succeeded: whenever the
/// signing step is the next to take, all the steps taken so far succeeded;
/// an abort names the first failed step; and provisioning finishes only when
/// every step succeeded.
pub proof fn lemma_no_partial_signing(keys: Seq<KeySpec>, outcomes: Seq<bool>)
    requires
        0 < provisioning(keys, true).len() <= usize::MAX,
    ensures
        ({
            let ops = provisioning(keys, true);
            status_after(ProvisionStatus::Running(0), outcomes, ops.len()) matches ProvisionStatus::Running(k)
                ==> (ops[k as int] == KeyOp::SecureZone ==> k == ops.len() - 1 && outcomes.len() == k
                && forall|j: int| 0 <= j < k ==> outcomes[j])
        }),
        status_after(ProvisionStatus::Running(0), outcomes, provisioning(keys, true).len()) matches ProvisionStatus::Aborted(k)
            ==> (k < outcomes.len() && !outcomes[k as int] && forall|j: int|
            0 <= j < k ==> outcomes[j]),
        status_after(ProvisionStatus::Running(0), outcomes, provisioning(keys, true).len())
            == ProvisionStatus::Finished ==> outcomes.len() >= provisioning(keys, true).len()
            && forall|j: int| 0 <= j < provisioning(keys, true).len() ==> outcomes[j],
{
    let n = provisioning(keys, true).len();
    lemma_secure_once_and_last(keys, true);
    lemma_running_after(0, outcomes, n);
    lemma_aborted_at(0, outcomes, n);
}

proof fn lemma_aborted_at(i: nat, outcomes: Seq<bool>, n: nat)
    requires
        i < n,
        n <= usize::MAX,
    ensures
        status_after(ProvisionStatus::Running(i as usize), outcomes, n) matches ProvisionStatus::Aborted(k)
            ==> (i <= k < i + outcomes.len() && !outcomes[k - i] && forall|j: int|
            0 <= j < k - i ==> outcomes[j]),
    decreases outcomes.len(),
{
    if outcomes.len() > 0 {
        let rest = outcomes.drop_first();
        let nx = next_status(ProvisionStatus::Running(i as usize), outcomes[0], n);
        if outcomes[0] && i + 1 < n {
            lemma_aborted_at(i + 1, rest, n);
            assert forall|j: int| 0 < j < outcomes.len() implies outcomes[j] == rest[j - 1] by {}
        } else {
            lemma_terminal_after(nx, rest, n);
        }
    }
}

} // verus!
