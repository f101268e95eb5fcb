use vstd::prelude::*;

verus! {

/// A support ticket as stored: its id, its user and the staff channel that holds it.
#[derive(Clone, Debug)]
pub struct Thread {
    pub id: String,
    pub user_id: i64,
    pub user_name: String,
    pub channel_id: String,
}

/// An API key of the administration panel.
#[derive(Clone, Debug)]
pub struct ApiKey {
    pub id: i64,
    pub key_hash: String,
    pub name: String,
    pub permissions: Vec<Permission>,
    pub created_at: i64,
    pub expires_at: Option<i64>,
    pub last_used_at: Option<i64>,
    pub is_active: bool,
}

/// What an API key may do.
#[derive(Clone, Copy, PartialEq, Eq, Structural, Debug)]
pub enum Permission {
    CreateTicket,
    ReadTickets,
    UpdateTicket,
    DeleteTicket,
    ReadConfig,
    UpdateConfig,
    ManageBot,
}

/// The name of a permission in the panel's JSON (screaming snake case).
pub open spec fn permission_name_spec(p: Permission) -> Seq<char> {
    match p {
        Permission::CreateTicket => "CREATE_TICKET"@,
        Permission::ReadTickets => "READ_TICKETS"@,
        Permission::UpdateTicket => "UPDATE_TICKET"@,
        Permission::DeleteTicket => "DELETE_TICKET"@,
        Permission::ReadConfig => "READ_CONFIG"@,
        Permission::UpdateConfig => "UPDATE_CONFIG"@,
        Permission::ManageBot => "MANAGE_BOT"@,
    }
}

/// Different permissions have different names, so a name read back gives the
/// permission it was written from.
pub proof fn lemma_permission_names_distinct(p: Permission, q: Permission)
    ensures
        permission_name_spec(p) == permission_name_spec(q) ==> p == q,
{
    reveal_strlit("CREATE_TICKET");
    reveal_strlit("READ_TICKETS");
    reveal_strlit("UPDATE_TICKET");
    reveal_strlit("DELETE_TICKET");
    reveal_strlit("READ_CONFIG");
    reveal_strlit("UPDATE_CONFIG");
    reveal_strlit("MANAGE_BOT");
    if permission_name_spec(p) == permission_name_spec(q) && p != q {
        let a = permission_name_spec(p);
        let b = permission_name_spec(q);
        assert(a.len() == b.len());
        assert(a[0] == b[0]);
        assert(a[2] == b[2]);
        assert(a[7] == b[7]);
    }
}

impl Permission {
    /// The name of the permission in the panel's JSON.
    pub fn wire_name(&self) -> (r: &'static str)
        ensures
            r@ == permission_name_spec(*self),
    {
        match self {
            Permission::CreateTicket => "CREATE_TICKET",
            Permission::ReadTickets => "READ_TICKETS",
            Permission::UpdateTicket => "UPDATE_TICKET",
            Permission::DeleteTicket => "DELETE_TICKET",
            Permission::ReadConfig => "READ_CONFIG",
            Permission::UpdateConfig => "UPDATE_CONFIG",
            Permission::ManageBot => "MANAGE_BOT",
        }
    }

    /// The permission of a JSON name.
    pub fn from_wire_name(name: &str) -> (r: Option<Permission>)
        ensures
            match r {
                Some(p) => permission_name_spec(p) == name@,
                None => forall|p: Permission| permission_name_spec(p) != name@,
            },
    {
        let all = [
            Permission::CreateTicket,
            Permission::ReadTickets,
            Permission::UpdateTicket,
            Permission::DeleteTicket,
            Permission::ReadConfig,
            Permission::UpdateConfig,
            Permission::ManageBot,
        ];
        let mut i: usize = 0;
        while i < 7
            invariant
                i <= 7,
                all@ == seq![
                    Permission::CreateTicket,
                    Permission::ReadTickets,
                    Permission::UpdateTicket,
                    Permission::DeleteTicket,
                    Permission::ReadConfig,
                    Permission::UpdateConfig,
                    Permission::ManageBot,
                ],
                forall|k: int| 0 <= k < i ==> permission_name_spec(all@[k]) != name@,
            decreases 7 - i,
        {
            let p = all[i];
            if crate::text::str_eq(p.wire_name(), name) {
                return Some(p);
            }
            i = i + 1;
        }
        proof {
            assert forall|p: Permission| permission_name_spec(p) != name@ by {
                match p {
                    Permission::CreateTicket => assert(all@[0] == p),
                    Permission::ReadTickets => assert(all@[1] == p),
                    Permission::UpdateTicket => assert(all@[2] == p),
                    Permission::DeleteTicket => assert(all@[3] == p),
                    Permission::ReadConfig => assert(all@[4] == p),
                    Permission::UpdateConfig => assert(all@[5] == p),
                    Permission::ManageBot => assert(all@[6] == p),
                }
            }
        }
        None
    }
}

} // verus!
