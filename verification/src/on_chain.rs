//! The checks that decide whether a proposal can enact, given what the target chain's
//! state says about the accounts.

use vstd::prelude::*;
use crate::accounts::contains_account;
use crate::network::{spec_para_id, Network};

verus! {

/// Whether the para id that a node reports is the one of the target network.
pub fn serves_target(network: &Network, para_id: u32) -> (b: bool)
    requires
        spec_para_id(*network) is Some,
    ensures
        b == (spec_para_id(*network) == Some(para_id)),
{
    match network.get_para_id() {
        Some(expected) => expected == para_id,
        None => false,
    }
}

/// A reason why the proposal would not enact.
#[derive(Clone, Copy, Debug, PartialEq, Eq, Structural)]
pub enum Finding {
    /// The account at this position has no session keys registered.
    NoSessionKeys { account: usize },
    /// The account at this position is already invulnerable.
    AlreadyInvulnerable { account: usize },
    /// The invulnerable set would grow beyond `MaxInvulnerables`.
    ExceedsMaxInvulnerables,
    /// The chain's `MaxInvulnerables` could not be read, so the resulting set cannot be
    /// shown to fit it.
    MaxInvulnerablesUnknown,
}

/// The outcome of the on-chain checks.
#[derive(Clone, Debug)]
pub struct Assessment {
    /// The reasons found, account by account and in the order of the accounts, then
    /// the size limit.
    pub findings: Vec<Finding>,
    /// How many invulnerables there would be once the proposal enacts.
    pub resulting: usize,
}

/// The findings for the account at position `i`.
pub open spec fn account_findings(i: int, account: Seq<u8>, has_keys: bool, invulnerables: Seq<Seq<u8>>) -> Seq<Finding> {
    (if has_keys { Seq::empty() } else { seq![Finding::NoSessionKeys { account: i as usize }] })
        + (if invulnerables.contains(account) {
        seq![Finding::AlreadyInvulnerable { account: i as usize }]
    } else {
        Seq::empty()
    })
}

/// The findings for the first `n` accounts.
pub open spec fn findings_upto(
    accounts: Seq<Seq<u8>>,
    has_keys: Seq<bool>,
    invulnerables: Seq<Seq<u8>>,
    n: nat,
) -> Seq<Finding>
    decreases n,
{
    if n == 0 {
        Seq::empty()
    } else {
        findings_upto(accounts, has_keys, invulnerables, (n - 1) as nat) + account_findings(
            n - 1,
            accounts[n - 1],
            has_keys[n - 1],
            invulnerables,
        )
    }
}

/// The finding about the size of the invulnerable set after the proposal: none when the
/// chain reports a maximum and the set fits it.
pub open spec fn size_findings(resulting: nat, max: Option<u32>) -> Seq<Finding> {
    match max {
        Some(m) => if resulting <= m {
            Seq::empty()
        } else {
            seq![Finding::ExceedsMaxInvulnerables]
        },
        None => seq![Finding::MaxInvulnerablesUnknown],
    }
}

/// All findings: those of each account in order, then the one about the size limit.
pub open spec fn spec_findings(
    accounts: Seq<Seq<u8>>,
    has_keys: Seq<bool>,
    invulnerables: Seq<Seq<u8>>,
    max: Option<u32>,
) -> Seq<Finding> {
    findings_upto(accounts, has_keys, invulnerables, accounts.len()) + size_findings(
        invulnerables.len() + accounts.len(),
        max,
    )
}

/// Checks the accounts against the state of the target chain: every account must have
/// session keys registered, none may already be invulnerable, and the resulting set
/// must fit `MaxInvulnerables`, which must therefore be known.
pub fn assess_accounts(
    accounts: &[[u8; 32]],
    has_session_keys: &[bool],
    invulnerables: &[[u8; 32]],
    max_invulnerables: Option<u32>,
) -> (res: Assessment)
    requires
        has_session_keys.len() == accounts.len(),
        invulnerables.len() + accounts.len() <= usize::MAX,
    ensures
        res.resulting == invulnerables.len() + accounts.len(),
        res.findings@ == spec_findings(
            accounts@.map_values(|a: [u8; 32]| a@),
            has_session_keys@,
            invulnerables@.map_values(|a: [u8; 32]| a@),
            max_invulnerables,
        ),
        res.findings@.contains(Finding::ExceedsMaxInvulnerables) <==> (max_invulnerables matches Some(
            m,
        ) && res.resulting > m),
        res.findings@.contains(Finding::MaxInvulnerablesUnknown) <==> max_invulnerables is None,
        forall|i: usize|
            #[trigger] res.findings@.contains((Finding::NoSessionKeys { account: i })) <==> (i
                < accounts.len() && !has_session_keys@[i as int]),
        forall|i: usize|
            #[trigger] res.findings@.contains((Finding::AlreadyInvulnerable { account: i })) <==> (i
                < accounts.len() && invulnerables@.map_values(|a: [u8; 32]| a@).contains(
                accounts@[i as int]@,
            )),
{
    let ghost accs = accounts@.map_values(|a: [u8; 32]| a@);
    let ghost invs = invulnerables@.map_values(|a: [u8; 32]| a@);
    let mut findings: Vec<Finding> = Vec::new();
    for i in 0..accounts.len()
        invariant
            has_session_keys.len() == accounts.len(),
            accs == accounts@.map_values(|a: [u8; 32]| a@),
            invs == invulnerables@.map_values(|a: [u8; 32]| a@),
            findings@ == findings_upto(accs, has_session_keys@, invs, i as nat),
    {
        let ghost before = findings@;
        if !has_session_keys[i] {
            findings.push(Finding::NoSessionKeys { account: i });
        }
        if contains_account(invulnerables, &accounts[i]) {
            findings.push(Finding::AlreadyInvulnerable { account: i });
        }
        assert(findings@ =~= before + account_findings(
            i as int,
            accs[i as int],
            has_session_keys@[i as int],
            invs,
        ));
    }
    let resulting = invulnerables.len() + accounts.len();
    let ghost before = findings@;
    match max_invulnerables {
        Some(max) => {
            if resulting > max as usize {
                findings.push(Finding::ExceedsMaxInvulnerables);
            }
        },
        None => {
            findings.push(Finding::MaxInvulnerablesUnknown);
        },
    }
    assert(findings@ =~= spec_findings(accs, has_session_keys@, invs, max_invulnerables));
    proof {
        lemma_findings_report_each_failure(accs, has_session_keys@, invs, max_invulnerables);
    }
    Assessment { findings, resulting }
}

/// Whether the account at position `i` has session keys and is not yet invulnerable.
pub open spec fn account_passes(
    accounts: Seq<Seq<u8>>,
    has_keys: Seq<bool>,
    invulnerables: Seq<Seq<u8>>,
    i: int,
) -> bool {
    has_keys[i] && !invulnerables.contains(accounts[i])
}

proof fn lemma_account_findings_empty(i: int, account: Seq<u8>, has_keys: bool, invulnerables: Seq<Seq<u8>>)
    ensures
        account_findings(i, account, has_keys, invulnerables).len() == 0 <==> (has_keys
            && !invulnerables.contains(account)),
{
}

proof fn lemma_findings_upto_empty(
    accounts: Seq<Seq<u8>>,
    has_keys: Seq<bool>,
    invulnerables: Seq<Seq<u8>>,
    n: nat,
)
    requires
        n <= accounts.len(),
        n <= has_keys.len(),
    ensures
        findings_upto(accounts, has_keys, invulnerables, n).len() == 0 <==> forall|i: int|
            0 <= i < n ==> #[trigger] account_passes(accounts, has_keys, invulnerables, i),
    decreases n,
{
    if n > 0 {
        let m = (n - 1) as nat;
        lemma_findings_upto_empty(accounts, has_keys, invulnerables, m);
        let prev = findings_upto(accounts, has_keys, invulnerables, m);
        let last = account_findings(m as int, accounts[m as int], has_keys[m as int], invulnerables);
        lemma_account_findings_empty(m as int, accounts[m as int], has_keys[m as int], invulnerables);
        assert(findings_upto(accounts, has_keys, invulnerables, n) == prev + last);
        assert((prev + last).len() == prev.len() + last.len());
        assert(last.len() == 0 <==> account_passes(accounts, has_keys, invulnerables, m as int));
        if forall|i: int| 0 <= i < n ==> #[trigger] account_passes(accounts, has_keys, invulnerables, i) {
            assert(account_passes(accounts, has_keys, invulnerables, m as int));
            assert forall|i: int| 0 <= i < m implies #[trigger] account_passes(
                accounts,
                has_keys,
                invulnerables,
                i,
            ) by {
                assert(0 <= i < n);
            }
            assert(prev.len() == 0);
            assert(last.len() == 0);
        }
        if prev.len() == 0 && last.len() == 0 {
            assert forall|i: int| 0 <= i < n implies #[trigger] account_passes(
                accounts,
                has_keys,
                invulnerables,
                i,
            ) by {
                if i < m {
                    assert(0 <= i < m);
                }
            }
        }
    }
}

proof fn lemma_size_findings_empty(resulting: nat, max: Option<u32>)
    ensures
        size_findings(resulting, max).len() == 0 <==> (max matches Some(m) && resulting <= m),
{
}

proof fn lemma_accounts_pass_split(accounts: Seq<Seq<u8>>, has_keys: Seq<bool>, invulnerables: Seq<Seq<u8>>)
    ensures
        (forall|i: int|
            0 <= i < accounts.len() ==> #[trigger] account_passes(accounts, has_keys, invulnerables, i))
            <==> {
            &&& forall|i: int| 0 <= i < accounts.len() ==> #[trigger] has_keys[i]
            &&& forall|i: int|
                0 <= i < accounts.len() ==> !invulnerables.contains(#[trigger] accounts[i])
        },
{
    if forall|i: int|
        0 <= i < accounts.len() ==> #[trigger] account_passes(accounts, has_keys, invulnerables, i) {
        assert forall|i: int| 0 <= i < accounts.len() implies #[trigger] has_keys[i] by {
            assert(account_passes(accounts, has_keys, invulnerables, i));
        }
        assert forall|i: int| 0 <= i < accounts.len() implies !invulnerables.contains(
            #[trigger] accounts[i],
        ) by {
            assert(account_passes(accounts, has_keys, invulnerables, i));
        }
    }
    if (forall|i: int| 0 <= i < accounts.len() ==> #[trigger] has_keys[i]) && (forall|i: int|
        0 <= i < accounts.len() ==> !invulnerables.contains(#[trigger] accounts[i])) {
        assert forall|i: int| 0 <= i < accounts.len() implies #[trigger] account_passes(
            accounts,
            has_keys,
            invulnerables,
            i,
        ) by {
            assert(has_keys[i]);
            assert(!invulnerables.contains(accounts[i]));
        }
    }
}

proof fn lemma_concat_contains(a: Seq<Finding>, b: Seq<Finding>, f: Finding)
    ensures
        (a + b).contains(f) <==> (a.contains(f) || b.contains(f)),
{
    if (a + b).contains(f) {
        let k = choose|k: int| 0 <= k < (a + b).len() && (a + b)[k] == f;
        if k < a.len() {
            assert(a[k] == f);
        } else {
            assert(b[k - a.len()] == f);
        }
    }
    if a.contains(f) {
        let k = choose|k: int| 0 <= k < a.len() && a[k] == f;
        assert((a + b)[k] == f);
    }
    if b.contains(f) {
        let k = choose|k: int| 0 <= k < b.len() && b[k] == f;
        assert((a + b)[a.len() + k] == f);
    }
}

/// Whether a finding is one about the account at a position below `n`, and that
/// account fails in the way the finding says.
pub open spec fn account_finding_holds(
    accounts: Seq<Seq<u8>>,
    has_keys: Seq<bool>,
    invulnerables: Seq<Seq<u8>>,
    n: nat,
    f: Finding,
) -> bool {
    match f {
        Finding::NoSessionKeys { account } => account < n && !has_keys[account as int],
        Finding::AlreadyInvulnerable { account } => account < n && invulnerables.contains(
            accounts[account as int],
        ),
        _ => false,
    }
}

proof fn lemma_findings_upto_contents(
    accounts: Seq<Seq<u8>>,
    has_keys: Seq<bool>,
    invulnerables: Seq<Seq<u8>>,
    n: nat,
    f: Finding,
)
    requires
        n <= accounts.len(),
        n <= has_keys.len(),
        n <= usize::MAX + 1,
    ensures
        findings_upto(accounts, has_keys, invulnerables, n).contains(f) <==> account_finding_holds(
            accounts,
            has_keys,
            invulnerables,
            n,
            f,
        ),
    decreases n,
{
    if n == 0 {
        assert(!findings_upto(accounts, has_keys, invulnerables, n).contains(f));
    } else {
        let m = (n - 1) as nat;
        lemma_findings_upto_contents(accounts, has_keys, invulnerables, m, f);
        let prev = findings_upto(accounts, has_keys, invulnerables, m);
        let keys_part: Seq<Finding> = if has_keys[m as int] {
            Seq::empty()
        } else {
            seq![Finding::NoSessionKeys { account: m as usize }]
        };
        let inv_part: Seq<Finding> = if invulnerables.contains(accounts[m as int]) {
            seq![Finding::AlreadyInvulnerable { account: m as usize }]
        } else {
            Seq::empty()
        };
        let last = account_findings(m as int, accounts[m as int], has_keys[m as int], invulnerables);
        assert(last == keys_part + inv_part);
        assert(findings_upto(accounts, has_keys, invulnerables, n) == prev + last);
        lemma_concat_contains(prev, last, f);
        lemma_concat_contains(keys_part, inv_part, f);
        assert(keys_part.contains(f) <==> (!has_keys[m as int] && f == Finding::NoSessionKeys {
            account: m as usize,
        })) by {
            if !has_keys[m as int] {
                assert(keys_part[0] == Finding::NoSessionKeys { account: m as usize });
            }
        }
        assert(inv_part.contains(f) <==> (invulnerables.contains(accounts[m as int]) && f
            == Finding::AlreadyInvulnerable { account: m as usize })) by {
            if invulnerables.contains(accounts[m as int]) {
                assert(inv_part[0] == Finding::AlreadyInvulnerable { account: m as usize });
            }
        }
    }
}

proof fn lemma_size_findings_contents(resulting: nat, max: Option<u32>, f: Finding)
    ensures
        size_findings(resulting, max).contains(f) <==> match f {
            Finding::ExceedsMaxInvulnerables => max matches Some(m) && resulting > m,
            Finding::MaxInvulnerablesUnknown => max is None,
            _ => false,
        },
{
    let s = size_findings(resulting, max);
    if s.len() == 1 {
        assert(s.contains(f) <==> s[0] == f);
    }
}

/// Every failure is reported, and nothing else: the size limit is reported exceeded
/// exactly when the chain reports a maximum that the resulting set is larger than, an
/// unknown maximum exactly when the chain reports none, a missing session key exactly
/// for the accounts without one, and an account already invulnerable exactly for those
/// that are; each of these whatever else is found.
pub proof fn lemma_findings_report_each_failure(
    accounts: Seq<Seq<u8>>,
    has_keys: Seq<bool>,
    invulnerables: Seq<Seq<u8>>,
    max: Option<u32>,
)
    requires
        has_keys.len() == accounts.len(),
        accounts.len() <= usize::MAX,
    ensures
        ({
            let findings = spec_findings(accounts, has_keys, invulnerables, max);
            &&& findings.contains(Finding::ExceedsMaxInvulnerables) <==> (max matches Some(m)
                && invulnerables.len() + accounts.len() > m)
            &&& findings.contains(Finding::MaxInvulnerablesUnknown) <==> max is None
            &&& forall|i: usize|
                #[trigger] findings.contains((Finding::NoSessionKeys { account: i })) <==> (i
                    < accounts.len() && !has_keys[i as int])
            &&& forall|i: usize|
                #[trigger] findings.contains((Finding::AlreadyInvulnerable { account: i })) <==> (i
                    < accounts.len() && invulnerables.contains(accounts[i as int]))
        }),
{
    let resulting = invulnerables.len() + accounts.len();
    let per_account = findings_upto(accounts, has_keys, invulnerables, accounts.len());
    let size = size_findings(resulting, max);
    let findings = spec_findings(accounts, has_keys, invulnerables, max);
    assert(findings == per_account + size);
    assert forall|f: Finding|
        findings.contains(f) <==> (account_finding_holds(
            accounts,
            has_keys,
            invulnerables,
            accounts.len(),
            f,
        ) || size.contains(f)) by {
        lemma_concat_contains(per_account, size, f);
        lemma_findings_upto_contents(accounts, has_keys, invulnerables, accounts.len(), f);
    }
    lemma_size_findings_contents(resulting, max, Finding::ExceedsMaxInvulnerables);
    lemma_size_findings_contents(resulting, max, Finding::MaxInvulnerablesUnknown);
    assert(!account_finding_holds(
        accounts,
        has_keys,
        invulnerables,
        accounts.len(),
        Finding::ExceedsMaxInvulnerables,
    ));
    assert(!account_finding_holds(
        accounts,
        has_keys,
        invulnerables,
        accounts.len(),
        Finding::MaxInvulnerablesUnknown,
    ));
    assert forall|i: usize|
        #[trigger] findings.contains((Finding::NoSessionKeys { account: i })) <==> (i
            < accounts.len() && !has_keys[i as int]) by {
        lemma_size_findings_contents(resulting, max, Finding::NoSessionKeys { account: i });
    }
    assert forall|i: usize|
        #[trigger] findings.contains((Finding::AlreadyInvulnerable { account: i })) <==> (i
            < accounts.len() && invulnerables.contains(accounts[i as int])) by {
        lemma_size_findings_contents(resulting, max, Finding::AlreadyInvulnerable { account: i });
    }
}

/// The proposal passes the on-chain checks exactly when every account has session keys,
/// no account is already invulnerable, and the chain reports a maximum that the
/// resulting set fits.
pub proof fn lemma_assessment_passes_iff(
    accounts: Seq<Seq<u8>>,
    has_keys: Seq<bool>,
    invulnerables: Seq<Seq<u8>>,
    max: Option<u32>,
)
    requires
        has_keys.len() == accounts.len(),
    ensures
        spec_findings(accounts, has_keys, invulnerables, max).len() == 0 <==> {
            &&& forall|i: int| 0 <= i < accounts.len() ==> #[trigger] has_keys[i]
            &&& forall|i: int|
                0 <= i < accounts.len() ==> !invulnerables.contains(#[trigger] accounts[i])
            &&& max matches Some(m) && invulnerables.len() + accounts.len() <= m
        },
{
    let resulting = invulnerables.len() + accounts.len();
    let per_account = findings_upto(accounts, has_keys, invulnerables, accounts.len());
    let size = size_findings(resulting, max);
    assert(spec_findings(accounts, has_keys, invulnerables, max) == per_account + size);
    assert((per_account + size).len() == per_account.len() + size.len());
    lemma_findings_upto_empty(accounts, has_keys, invulnerables, accounts.len());
    lemma_size_findings_empty(resulting, max);
    lemma_accounts_pass_split(accounts, has_keys, invulnerables);
}

} // verus!
