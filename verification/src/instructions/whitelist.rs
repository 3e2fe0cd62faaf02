use vstd::prelude::*;

use crate::errors::ErrorCode;
use crate::identity::Identity;

verus! {

/// Number of member slots the registry is allocated with. The capacity is a
/// static allocation decision made at creation, not a runtime parameter.
pub const WHITELIST_CAPACITY: usize = 10;

/// The bounded registry of approved buyer identities.
///
/// Members form an insertion-ordered sequence. Only identities already present
/// in the registry may purchase tokens or mutate the registry; the initializer
/// of the sale is enrolled first, which bootstraps membership.
pub struct Whitelist {
    /// The approved identities, in insertion order.
    pub users: Vec<Identity>,
}

impl Whitelist {
    /// The members, in insertion order.
    pub open spec fn members(self) -> Seq<Identity> {
        self.users@
    }

    /// Whether `user` is an approved member.
    pub open spec fn is_member(self, user: Identity) -> bool {
        self.users@.contains(user)
    }

    /// A well-formed registry stays within its capacity and never lists the
    /// same identity twice.
    pub open spec fn wf(self) -> bool {
        &&& self.users@.len() <= WHITELIST_CAPACITY
        &&& forall|i: int, j: int|
            0 <= i < j < self.users@.len() ==> self.users@[i] != self.users@[j]
    }

    /// Creates the empty registry.
    pub fn new() -> (w: Whitelist)
        ensures
            w.members() == Seq::<Identity>::empty(),
            w.wf(),
    {
        Whitelist { users: Vec::new() }
    }

    /// Decides membership of `user`.
    pub fn contains_user(&self, user: Identity) -> (b: bool)
        ensures
            b == self.is_member(user),
    {
        let n = self.users.len();
        let mut i: usize = 0;
        while i < n
            invariant
                n == self.users@.len(),
                i <= n,
                forall|j: int| 0 <= j < i ==> self.users@[j] != user,
            decreases n - i,
        {
            if self.users[i] == user {
                return true;
            }
            i = i + 1;
        }
        false
    }
}

/// The records one whitelist-management transition names: the registry to
/// mutate and the identity that signed the request.
pub struct ManageWhitelist {
    /// The registry being managed.
    pub whitelist: Whitelist,
    /// The caller asking for the change.
    pub authority: Identity,
}

/// The members after an enrollment of `user`: appended at the end, or left
/// unchanged when `user` is already present.
pub open spec fn with_member(s: Seq<Identity>, user: Identity) -> Seq<Identity> {
    if s.contains(user) {
        s
    } else {
        s.push(user)
    }
}

/// The members after a removal of `user`: the first occurrence leaves and the
/// entries after it shift left; unchanged when `user` is absent.
pub open spec fn without_member(s: Seq<Identity>, user: Identity) -> Seq<Identity> {
    s.remove_value(user)
}

/// Enrolls `user` in the registry.
///
/// Any existing member may enroll any identity, itself included; there is no
/// distinguished administrator. Enrolling an existing member changes nothing.
pub fn add_to_whitelist_(ctx: &mut ManageWhitelist, user: Identity) -> (r: Result<
    (),
    ErrorCode,
>)
    requires
        old(ctx).whitelist.wf(),
    ensures
        final(ctx).authority == old(ctx).authority,
        final(ctx).whitelist.wf(),
        r.is_ok() <==> (old(ctx).whitelist.is_member(old(ctx).authority)
            && (old(ctx).whitelist.is_member(user)
            || old(ctx).whitelist.members().len() < WHITELIST_CAPACITY)),
        r == Err::<(), ErrorCode>(ErrorCode::NotWhitelisted)
            <==> !old(ctx).whitelist.is_member(old(ctx).authority),
        r == Err::<(), ErrorCode>(ErrorCode::RegistryFull)
            <==> (old(ctx).whitelist.is_member(old(ctx).authority)
            && !old(ctx).whitelist.is_member(user)
            && old(ctx).whitelist.members().len() >= WHITELIST_CAPACITY),
        r.is_ok() ==> final(ctx).whitelist.members() == with_member(
            old(ctx).whitelist.members(),
            user,
        ),
        r.is_ok() ==> final(ctx).whitelist.is_member(user),
        r.is_ok() ==> forall|x: Identity|
            final(ctx).whitelist.is_member(x) <==> (old(ctx).whitelist.is_member(x) || x == user),
        r.is_err() ==> final(ctx).whitelist == old(ctx).whitelist,
{
    if !ctx.whitelist.contains_user(ctx.authority) {
        return Err(ErrorCode::NotWhitelisted);
    }
    if ctx.whitelist.contains_user(user) {
        return Ok(());
    }
    if ctx.whitelist.users.len() >= WHITELIST_CAPACITY {
        return Err(ErrorCode::RegistryFull);
    }
    ctx.whitelist.users.push(user);
    proof {
        let s = old(ctx).whitelist.members();
        let t = ctx.whitelist.members();
        assert(t == s.push(user));
        assert forall|x: Identity| t.contains(x) <==> (s.contains(x) || x == user) by {
            if t.contains(x) {
                let i = choose|i: int| 0 <= i < t.len() && t[i] == x;
                if i < s.len() {
                    assert(s[i] == x);
                }
            }
            if s.contains(x) {
                let i = choose|i: int| 0 <= i < s.len() && s[i] == x;
                assert(t[i] == x);
            }
            if x == user {
                assert(t[s.len() as int] == x);
            }
        }
        assert forall|i: int, j: int| 0 <= i < j < t.len() implies t[i] != t[j] by {
            if j < s.len() {
                assert(s[i] != s[j]);
            } else {
                assert(t[j] == user);
                assert(s[i] != user) by {
                    if s[i] == user {
                        assert(s.contains(user));
                    }
                }
            }
        }
    }
    Ok(())
}

/// Strikes `user` from the registry.
///
/// Any existing member may remove any identity, itself included. Removing an
/// identity that is not present succeeds silently and changes nothing.
pub fn remove_from_whitelist_(ctx: &mut ManageWhitelist, user: Identity) -> (r: Result<
    (),
    ErrorCode,
>)
    requires
        old(ctx).whitelist.wf(),
    ensures
        final(ctx).authority == old(ctx).authority,
        final(ctx).whitelist.wf(),
        r.is_ok() <==> old(ctx).whitelist.is_member(old(ctx).authority),
        r == Err::<(), ErrorCode>(ErrorCode::NotWhitelisted)
            <==> !old(ctx).whitelist.is_member(old(ctx).authority),
        r.is_ok() ==> final(ctx).whitelist.members() == without_member(
            old(ctx).whitelist.members(),
            user,
        ),
        r.is_ok() ==> !final(ctx).whitelist.is_member(user),
        r.is_ok() ==> forall|x: Identity|
            final(ctx).whitelist.is_member(x) <==> (old(ctx).whitelist.is_member(x) && x != user),
        r.is_err() ==> final(ctx).whitelist == old(ctx).whitelist,
{
    if !ctx.whitelist.contains_user(ctx.authority) {
        return Err(ErrorCode::NotWhitelisted);
    }
    let ghost s = old(ctx).whitelist.members();
    let n = ctx.whitelist.users.len();
    let mut i: usize = 0;
    while i < n
        invariant
            old(ctx).whitelist.wf(),
            old(ctx).whitelist.is_member(old(ctx).authority),
            ctx.whitelist == old(ctx).whitelist,
            ctx.authority == old(ctx).authority,
            n == s.len(),
            s == ctx.whitelist.members(),
            i <= n,
            forall|j: int| 0 <= j < i ==> s[j] != user,
        decreases n - i,
    {
        if ctx.whitelist.users[i] == user {
            ctx.whitelist.users.remove(i);
            proof {
                lemma_removal_effect(s, user, i as int);
            }
            return Ok(());
        }
        i = i + 1;
    }
    proof {
        assert(!s.contains(user));
        lemma_remove_absent_is_noop(s, user);
    }
    Ok(())
}

/// The effect, on the member sequence, of taking out the first occurrence of
/// `user`, sitting at index `i`: membership loses exactly `user`, the
/// capacity bound and distinctness are kept, and the result is what
/// `without_member` names.
proof fn lemma_removal_effect(s: Seq<Identity>, user: Identity, i: int)
    requires
        0 <= i < s.len(),
        s[i] == user,
        forall|j: int| 0 <= j < i ==> s[j] != user,
        forall|a: int, b: int| 0 <= a < b < s.len() ==> s[a] != s[b],
    ensures
        s.remove(i) == without_member(s, user),
        !s.remove(i).contains(user),
        forall|a: int, b: int| 0 <= a < b < s.remove(i).len() ==> s.remove(i)[a] != s.remove(i)[b],
        forall|x: Identity| s.remove(i).contains(x) <==> (s.contains(x) && x != user),
{
    let t = s.remove(i);
    s.remove_ensures(i);
    assert(s.contains(user));
    s.index_of_first_ensures(user);
    let idx = s.index_of_first(user)->Some_0;
    assert(idx == i) by {
        if idx < i {
            assert(s[idx] != user);
        }
        if idx > i {
            assert(s[i] != user);
        }
    }
    assert(t == without_member(s, user));
    // every surviving entry differs from `user`: the other indices held other
    // identities, by distinctness
    assert forall|k: int| 0 <= k < t.len() implies t[k] != user by {
        if k < i {
            assert(t[k] == s[k]);
        } else {
            assert(t[k] == s[k + 1]);
            assert(s[i] != s[k + 1]);
        }
    }
    assert(!t.contains(user));
    assert forall|a: int, b: int| 0 <= a < b < t.len() implies t[a] != t[b] by {
        let a0: int = if a < i {
            a
        } else {
            a + 1
        };
        let b0: int = if b < i {
            b
        } else {
            b + 1
        };
        assert(t[a] == s[a0]);
        assert(t[b] == s[b0]);
        assert(s[a0] != s[b0]);
    }
    assert forall|x: Identity| t.contains(x) <==> (s.contains(x) && x != user) by {
        if t.contains(x) {
            let k = choose|k: int| 0 <= k < t.len() && t[k] == x;
            if k < i {
                assert(s[k] == x);
            } else {
                assert(s[k + 1] == x);
            }
        }
        if s.contains(x) && x != user {
            let k = choose|k: int| 0 <= k < s.len() && s[k] == x;
            if k < i {
                assert(t[k] == x);
            } else {
                assert(k != i);
                assert(t[k - 1] == x);
            }
        }
    }
}

/// Law: enrolling an identity that is not yet a member and then removing it
/// returns the registry to exactly its prior member sequence.
pub proof fn lemma_add_then_remove_round_trip(s: Seq<Identity>, user: Identity)
    requires
        !s.contains(user),
    ensures
        without_member(with_member(s, user), user) == s,
{
    let t = s.push(user);
    assert(with_member(s, user) == t);
    assert(t[s.len() as int] == user);
    assert(t.contains(user));
    t.index_of_first_ensures(user);
    let idx = t.index_of_first(user)->Some_0;
    assert(idx == s.len() as int) by {
        if idx < s.len() {
            assert(t[idx] == s[idx]);
            assert(s.contains(user));
        }
    }
    assert(t.remove(s.len() as int) =~= s);
}

/// Law: removing an identity that is not a member leaves the member sequence
/// unchanged.
pub proof fn lemma_remove_absent_is_noop(s: Seq<Identity>, user: Identity)
    requires
        !s.contains(user),
    ensures
        without_member(s, user) == s,
{
    s.index_of_first_ensures(user);
}

} // verus!
