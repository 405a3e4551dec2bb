//! Users: who may work on a project, and what each may do.

use openssl::rsa::Rsa;
use vstd::prelude::*;
use vstd::std_specs::cmp::PartialEqSpecImpl;

use crate::err_funcs::invalid_pub_key;
use crate::error::{Error, ErrorView};
use crate::keys::{fits_pem, is_public_key, MAX_PEM_LEN};
use crate::project_types::permissions::{Permission, PermissionEnum, PermissionView};

verus! {

/// One user of the project.
#[derive(Debug, Eq)]
pub struct User {
    pub name: String,
    pub public_key: String,
    pub permissions: Vec<Permission>,
}

/// A user as contracts see it.
pub struct UserView {
    pub name: Seq<char>,
    pub public_key: Seq<char>,
    pub permissions: Seq<PermissionView>,
}

/// The views of a list of permissions, in the same order.
pub open spec fn permission_views(permissions: Seq<Permission>) -> Seq<PermissionView> {
    permissions.map_values(|p: Permission| p@)
}

impl View for User {
    type V = UserView;

    open spec fn view(&self) -> UserView {
        UserView {
            name: self.name@,
            public_key: self.public_key@,
            permissions: permission_views(self.permissions@),
        }
    }
}

/// The permission that makes its holder an administrator.
pub open spec fn admin_permission() -> PermissionView {
    PermissionView { which: PermissionEnum::GrantPerm, target: None }
}

/// The permissions other than `perm`.
pub open spec fn other_than(perm: PermissionView) -> spec_fn(PermissionView) -> bool {
    |p: PermissionView| p != perm
}

impl UserView {
    /// Whether the user holds `perm`.
    pub open spec fn has_permission(self, perm: PermissionView) -> bool {
        self.permissions.contains(perm)
    }

    /// Whether the user may grant and revoke permissions.
    pub open spec fn is_admin(self) -> bool {
        self.has_permission(admin_permission())
    }

    /// The user with `perm` added at the end of the list, unless the user
    /// holds it already.
    pub open spec fn with_permission(self, perm: PermissionView) -> UserView {
        if self.has_permission(perm) {
            self
        } else {
            UserView { permissions: self.permissions.push(perm), ..self }
        }
    }

    /// The user without `perm`; the other permissions keep their order.
    pub open spec fn without_permission(self, perm: PermissionView) -> UserView {
        UserView {
            permissions: self.permissions.filter(other_than(perm)),
            ..self
        }
    }

    /// Whether no permission is listed twice.
    pub open spec fn wf(self) -> bool {
        self.permissions.no_duplicates()
    }
}

/// A user who holds no permission twice still holds none twice after one
/// more is given.
pub proof fn lemma_with_permission_wf(user: UserView, perm: PermissionView)
    requires
        user.wf(),
    ensures
        user.with_permission(perm).wf(),
{
}

/// What is left of a list after `perm` is taken out of it: nothing but what
/// the list held, and `perm` no longer.
pub proof fn lemma_filter_out(list: Seq<PermissionView>, perm: PermissionView)
    ensures
        !list.filter(other_than(perm)).contains(perm),
        forall|q: PermissionView| #[trigger]
            list.filter(other_than(perm)).contains(q) ==> list.contains(q),
{
    let kept = list.filter(other_than(perm));
    if kept.contains(perm) {
        let i = choose|i: int| 0 <= i < kept.len() && kept[i] == perm;
        list.lemma_filter_pred(other_than(perm), i);
    }
    assert forall|q: PermissionView| #[trigger] kept.contains(q) implies list.contains(q) by {
        list.lemma_filter_contains_rev(other_than(perm), q);
    }
}

/// Taking `perm` out of a list that holds no item twice leaves a list that
/// holds no item twice.
pub proof fn lemma_filter_out_no_duplicates(list: Seq<PermissionView>, perm: PermissionView)
    requires
        list.no_duplicates(),
    ensures
        list.filter(other_than(perm)).no_duplicates(),
    decreases list.len(),
{
    if list.len() == 0 {
        reveal(Seq::filter);
    } else {
        let front = list.drop_last();
        let last = list.last();
        assert(list =~= front.push(last));
        front.lemma_filter_push(last, other_than(perm));
        lemma_filter_out_no_duplicates(front, perm);
        let kept = front.filter(other_than(perm));
        if kept.contains(last) {
            front.lemma_filter_contains_rev(other_than(perm), last);
            let i = choose|i: int| 0 <= i < front.len() && front[i] == last;
            assert(list[i] == list[list.len() - 1]);
        }
    }
}

/// Taking `perm` out of a list that does not hold it leaves the list as it
/// is.
pub proof fn lemma_filter_out_absent(list: Seq<PermissionView>, perm: PermissionView)
    requires
        !list.contains(perm),
    ensures
        list.filter(other_than(perm)) == list,
    decreases list.len(),
{
    if list.len() == 0 {
        reveal(Seq::filter);
    } else {
        let front = list.drop_last();
        let last = list.last();
        assert(list =~= front.push(last));
        front.lemma_filter_push(last, other_than(perm));
        assert(!front.contains(perm)) by {
            if front.contains(perm) {
                let i = choose|i: int| 0 <= i < front.len() && front[i] == perm;
                assert(list[i] == perm);
            }
        }
        assert(last != perm) by {
            assert(list[list.len() - 1] == last);
        }
        lemma_filter_out_absent(front, perm);
    }
}

/// A user who holds no permission twice still holds none twice after one is
/// taken.
pub proof fn lemma_without_permission_wf(user: UserView, perm: PermissionView)
    requires
        user.wf(),
    ensures
        user.without_permission(perm).wf(),
{
    lemma_filter_out_no_duplicates(user.permissions, perm);
}

fn permissions_eq(a: &Vec<Permission>, b: &Vec<Permission>) -> (same: bool)
    ensures
        same == (permission_views(a@) == permission_views(b@)),
{
    if a.len() != b.len() {
        return false;
    }
    let mut i: usize = 0;
    while i < a.len()
        invariant
            i <= a.len(),
            a.len() == b.len(),
            forall|j: int| 0 <= j < i ==> a@[j]@ == b@[j]@,
        decreases a.len() - i,
    {
        if a[i] != b[i] {
            assert(permission_views(a@)[i as int] != permission_views(b@)[i as int]);
            return false;
        }
        i += 1;
    }
    assert(permission_views(a@) =~= permission_views(b@));
    true
}

fn permissions_clone(list: &Vec<Permission>) -> (copy: Vec<Permission>)
    ensures
        copy@ == list@,
{
    let mut copy: Vec<Permission> = Vec::new();
    let mut i: usize = 0;
    while i < list.len()
        invariant
            i <= list.len(),
            copy@ == list@.take(i as int),
        decreases list.len() - i,
    {
        copy.push(list[i].clone());
        assert(copy@ =~= list@.take(i + 1));
        i += 1;
    }
    assert(list@.take(i as int) =~= list@);
    copy
}

impl PartialEq for User {
    fn eq(&self, other: &User) -> (same: bool) {
        self.name == other.name && self.public_key == other.public_key && permissions_eq(
            &self.permissions,
            &other.permissions,
        )
    }
}

impl PartialEqSpecImpl for User {
    open spec fn obeys_eq_spec() -> bool {
        true
    }

    open spec fn eq_spec(&self, other: &User) -> bool {
        self@ == other@
    }
}

impl Clone for User {
    fn clone(&self) -> (copy: User)
        ensures
            copy@ == self@,
    {
        User {
            name: self.name.clone(),
            public_key: self.public_key.clone(),
            permissions: permissions_clone(&self.permissions),
        }
    }
}

impl User {
    /// A user called `name` with the public key `pub_key` and no permission.
    /// The key has to be an RSA public key in PEM form, which is for the key
    /// library to say: a user is made only of a key that it read as one, and
    /// a text it does not take as one is refused.
    pub fn new(name: &str, pub_key: &str) -> (r: Result<User, Error>)
        ensures
            match r {
                Ok(user) => is_public_key(pub_key@) && user@ == (UserView {
                    name: name@,
                    public_key: pub_key@,
                    permissions: Seq::empty(),
                }),
                Err(e) => e@ == ErrorView::InvalidPublicKey(pub_key@),
            },
            !fits_pem(pub_key@) ==> r is Err,
    {
        match User::validate_public_key(pub_key) {
            Ok(()) => {
                let user = User {
                    name: name.to_owned(),
                    public_key: pub_key.to_owned(),
                    permissions: Vec::new(),
                };
                assert(user@.permissions =~= Seq::empty());
                Ok(user)
            },
            Err(e) => Err(e),
        }
    }

    /// Asks the key library whether `pub_key` is an RSA public key in PEM
    /// form. A key is accepted only where the library read it as one. A text
    /// that it does not take as one, or that is too long to hand to it, is
    /// an invalid public key.
    pub fn validate_public_key(pub_key: &str) -> (r: Result<(), Error>)
        ensures
            r is Ok ==> is_public_key(pub_key@),
            r matches Err(e) ==> e@ == ErrorView::InvalidPublicKey(pub_key@),
            !fits_pem(pub_key@) ==> r is Err,
    {
        let pem = pub_key.as_bytes();
        if pem.len() > MAX_PEM_LEN {
            return Err(invalid_pub_key(pub_key));
        }
        match Rsa::public_key_from_pem(pem) {
            Ok(_) => Ok(()),
            Err(_) => Err(invalid_pub_key(pub_key)),
        }
    }

    /// Whether the user holds `perm`.
    pub fn has_permission(&self, perm: &Permission) -> (held: bool)
        ensures
            held == self@.has_permission(perm@),
    {
        let mut i: usize = 0;
        while i < self.permissions.len()
            invariant
                i <= self.permissions.len(),
                forall|j: int| 0 <= j < i ==> self.permissions@[j]@ != perm@,
            decreases self.permissions.len() - i,
        {
            if self.permissions[i] == *perm {
                assert(self@.permissions[i as int] == perm@);
                return true;
            }
            i += 1;
        }
        false
    }

    /// Whether the user may grant and revoke permissions.
    pub fn is_admin(&self) -> (admin: bool)
        ensures
            admin == self@.is_admin(),
    {
        let admin_permission = Permission { which: PermissionEnum::GrantPerm, target: None };
        self.has_permission(&admin_permission)
    }

    /// Gives the user `perm`. A user who holds it already stays as they are.
    pub fn add_permission(&mut self, perm: Permission)
        ensures
            final(self)@ == old(self)@.with_permission(perm@),
    {
        if !self.has_permission(&perm) {
            self.permissions.push(perm);
            assert(permission_views(self.permissions@) =~= permission_views(
                old(self).permissions@,
            ).push(perm@));
        }
    }

    /// Takes `perm` from the user. A user who does not hold it stays as they
    /// are.
    pub fn remove_permission(&mut self, perm: Permission)
        ensures
            final(self)@ == old(self)@.without_permission(perm@),
            !final(self)@.has_permission(perm@),
            !old(self)@.has_permission(perm@) ==> final(self)@ == old(self)@,
    {
        let ghost differs = other_than(perm@);
        let ghost before = old(self)@.permissions;
        let mut kept: Vec<Permission> = Vec::new();
        let mut i: usize = 0;
        proof {
            reveal(Seq::filter);
            assert(before.take(0) =~= Seq::<PermissionView>::empty());
        }
        while i < self.permissions.len()
            invariant
                i <= self.permissions.len(),
                *self == *old(self),
                before == permission_views(self.permissions@),
                differs == other_than(perm@),
                permission_views(kept@) == before.take(i as int).filter(differs),
            decreases self.permissions.len() - i,
        {
            proof {
                reveal(Seq::filter);
                assert(before.take(i + 1).drop_last() =~= before.take(i as int));
                assert(before.take(i + 1).last() == self.permissions@[i as int]@);
            }
            if self.permissions[i] != perm {
                let ghost views = permission_views(kept@);
                kept.push(self.permissions[i].clone());
                assert(permission_views(kept@) =~= views.push(self.permissions@[i as int]@));
            }
            i += 1;
        }
        assert(before.take(i as int) =~= before);
        self.permissions = kept;
        proof {
            lemma_filter_out(before, perm@);
            if !before.contains(perm@) {
                lemma_filter_out_absent(before, perm@);
            }
        }
    }
}

} // verus!
