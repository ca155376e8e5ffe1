use vstd::prelude::*;

use crate::text::{copy_bytes, joined};

verus! {

/// The private-key field of a key record as it stands on disk.
pub enum KeyMaterial {
    /// Legacy form: the DER bytes of the private key.
    Raw(Vec<u8>),
    /// Migrated form: the name under which the keystore holds the key.
    Handle(String),
    /// Any other shape, left as it is.
    Other,
}

pub enum KeyState {
    Raw(Seq<u8>),
    Handle(Seq<char>),
    Other,
}

impl View for KeyMaterial {
    type V = KeyState;

    open spec fn view(&self) -> KeyState {
        match self {
            KeyMaterial::Raw(b) => KeyState::Raw(b@),
            KeyMaterial::Handle(h) => KeyState::Handle(h@),
            KeyMaterial::Other => KeyState::Other,
        }
    }
}

pub open spec fn key_view(k: Option<KeyMaterial>) -> Option<KeyState> {
    match k {
        Some(m) => Some(m@),
        None => None,
    }
}

/// A key that is to be placed in the keystore under `handle`.
pub struct KeyImport {
    pub handle: String,
    pub bits: u32,
    pub der: Vec<u8>,
}

pub struct ImportView {
    pub handle: Seq<char>,
    pub bits: u32,
    pub der: Seq<u8>,
}

impl View for KeyImport {
    type V = ImportView;

    open spec fn view(&self) -> ImportView {
        ImportView { handle: self.handle@, bits: self.bits, der: self.der@ }
    }
}

pub open spec fn imports_view(v: Seq<KeyImport>) -> Seq<ImportView> {
    v.map_values(|x: KeyImport| x@)
}

/// The device activation key of the hardware record, with the serial number
/// of the device it belongs to.
pub struct HardwareKeys {
    pub serial: String,
    pub activation_key: Option<KeyMaterial>,
}

/// The keys of one user record: the device-auth key and one identity key per
/// registered service.
pub struct UserKeys {
    pub user_id: String,
    pub auth_key: Option<KeyMaterial>,
    pub service_keys: Vec<Option<KeyMaterial>>,
}

pub struct UserView {
    pub user_id: Seq<char>,
    pub auth_key: Option<KeyState>,
    pub service_keys: Seq<Option<KeyState>>,
}

impl View for UserKeys {
    type V = UserView;

    open spec fn view(&self) -> UserView {
        UserView {
            user_id: self.user_id@,
            auth_key: key_view(self.auth_key),
            service_keys: self.service_keys@.map_values(|k: Option<KeyMaterial>| key_view(k)),
        }
    }
}

pub open spec fn users_view(us: Seq<UserKeys>) -> Seq<UserView> {
    us.map_values(|u: UserKeys| u@)
}

/// Key size of the device activation key.
pub const ACTIVATION_KEY_BITS: u32 = 1024;

/// Key size of a user's device-auth key.
pub const AUTH_KEY_BITS: u32 = 2048;

pub open spec fn activation_handle_of(serial: Seq<char>) -> Seq<char> {
    seq!['a', 'c', 't', 'i', 'v', 'a', 't', 'i', 'o', 'n', ':'] + serial
}

pub open spec fn ids_handle_of(user_id: Seq<char>) -> Seq<char> {
    seq!['i', 'd', 's', ':'] + user_id
}

pub open spec fn holds_raw(k: Option<KeyState>) -> bool {
    k matches Some(KeyState::Raw(_))
}

/// A key field after migration: raw bytes give way to the handle.
pub open spec fn migrated_key(k: Option<KeyState>, handle: Seq<char>) -> Option<KeyState> {
    match k {
        Some(KeyState::Raw(_)) => Some(KeyState::Handle(handle)),
        _ => k,
    }
}

/// A user record after migration: every key of the user is named by the
/// user's `ids:` handle.
pub open spec fn migrated_user(u: UserView) -> UserView {
    let h = ids_handle_of(u.user_id);
    UserView {
        user_id: u.user_id,
        auth_key: migrated_key(u.auth_key, h),
        service_keys: u.service_keys.map_values(|k: Option<KeyState>| migrated_key(k, h)),
    }
}

pub open spec fn user_has_raw(u: UserView) -> bool {
    holds_raw(u.auth_key) || exists|j: int| 0 <= j < u.service_keys.len() && holds_raw(u.service_keys[j])
}

/// Migration rewrites at least one of these records.
pub open spec fn users_changed(us: Seq<UserView>) -> bool {
    exists|i: int| 0 <= i < us.len() && user_has_raw(us[i])
}

/// The keystore import that one user record calls for: its auth key, if that
/// is still raw. Service keys share the auth key's handle.
pub open spec fn user_imports(u: UserView) -> Seq<ImportView> {
    match u.auth_key {
        Some(KeyState::Raw(b)) => seq![
            ImportView { handle: ids_handle_of(u.user_id), bits: AUTH_KEY_BITS, der: b },
        ],
        _ => seq![],
    }
}

pub open spec fn users_imports(us: Seq<UserView>) -> Seq<ImportView>
    decreases us.len(),
{
    if us.len() == 0 {
        seq![]
    } else {
        users_imports(us.drop_last()) + user_imports(us.last())
    }
}

/// The keystore handle of a device's activation key.
pub fn activation_handle(serial: &str) -> (r: String)
    ensures
        r@ == activation_handle_of(serial@),
{
    proof {
        reveal_strlit("activation:");
    }
    joined("activation:", serial)
}

/// The keystore handle of a user's identity keys.
pub fn ids_handle(user_id: &str) -> (r: String)
    ensures
        r@ == ids_handle_of(user_id@),
{
    proof {
        reveal_strlit("ids:");
    }
    joined("ids:", user_id)
}

fn migrate_key(k: &Option<KeyMaterial>, handle: &String) -> (r: Option<KeyMaterial>)
    ensures
        key_view(r) == migrated_key(key_view(*k), handle@),
{
    match k {
        Some(KeyMaterial::Raw(_)) => Some(KeyMaterial::Handle(handle.clone())),
        Some(KeyMaterial::Handle(h)) => Some(KeyMaterial::Handle(h.clone())),
        Some(KeyMaterial::Other) => Some(KeyMaterial::Other),
        None => None,
    }
}

fn raw_bytes(k: &Option<KeyMaterial>) -> (r: Option<Vec<u8>>)
    ensures
        r is Some <==> holds_raw(key_view(*k)),
        r is Some ==> key_view(*k) == Some(KeyState::Raw(r->0@)),
{
    match k {
        Some(KeyMaterial::Raw(b)) => Some(copy_bytes(b)),
        _ => None,
    }
}

/// Replaces the raw activation key of the hardware record by its handle
/// `activation:<serial>`, and returns the import that the replacement calls
/// for; a record already migrated is left as it is and asks for none.
pub fn migrate_hardware(hw: &mut HardwareKeys) -> (r: Option<KeyImport>)
    ensures
        final(hw).serial@ == old(hw).serial@,
        key_view(final(hw).activation_key) == migrated_key(
            key_view(old(hw).activation_key),
            activation_handle_of(old(hw).serial@),
        ),
        r is Some <==> holds_raw(key_view(old(hw).activation_key)),
        r matches Some(imp) ==> key_view(old(hw).activation_key) == Some(KeyState::Raw(imp.der@))
            && imp.handle@ == activation_handle_of(old(hw).serial@) && imp.bits
            == ACTIVATION_KEY_BITS,
{
    let handle = activation_handle(hw.serial.as_str());
    let der = raw_bytes(&hw.activation_key);
    hw.activation_key = migrate_key(&hw.activation_key, &handle);
    match der {
        Some(der) => Some(KeyImport { handle, bits: ACTIVATION_KEY_BITS, der }),
        None => None,
    }
}

/// One user record after migration, with the import it calls for.
pub fn migrate_user(u: &UserKeys) -> (r: (UserKeys, Option<KeyImport>))
    ensures
        r.0@ == migrated_user(u@),
        imports_view(option_seq(r.1)) == user_imports(u@),
{
    let handle = ids_handle(u.user_id.as_str());
    let auth_key = migrate_key(&u.auth_key, &handle);
    let mut service_keys: Vec<Option<KeyMaterial>> = Vec::new();
    let n = u.service_keys.len();
    let mut i: usize = 0;
    while i < n
        invariant
            n == u.service_keys.len(),
            i <= n,
            service_keys.len() == i,
            forall|j: int|
                0 <= j < i ==> key_view(#[trigger] service_keys@[j]) == migrated_key(
                    key_view(u.service_keys@[j]),
                    handle@,
                ),
        decreases n - i,
    {
        service_keys.push(migrate_key(&u.service_keys[i], &handle));
        i += 1;
    }
    let out = UserKeys { user_id: u.user_id.clone(), auth_key, service_keys };
    assert(out@.service_keys =~= migrated_user(u@).service_keys);
    let imp = match raw_bytes(&u.auth_key) {
        Some(der) => Some(KeyImport { handle, bits: AUTH_KEY_BITS, der }),
        None => None,
    };
    proof {
        if imp is Some {
            assert(imports_view(option_seq(imp)) =~= user_imports(u@));
        } else {
            assert(imports_view(option_seq(imp)) =~= user_imports(u@));
        }
    }
    (out, imp)
}

fn is_raw(k: &Option<KeyMaterial>) -> (r: bool)
    ensures
        r == holds_raw(key_view(*k)),
{
    match k {
        Some(KeyMaterial::Raw(_)) => true,
        _ => false,
    }
}

/// Whether migration would rewrite this user record.
pub fn has_raw_key(u: &UserKeys) -> (r: bool)
    ensures
        r == user_has_raw(u@),
{
    if is_raw(&u.auth_key) {
        return true;
    }
    let n = u.service_keys.len();
    let mut i: usize = 0;
    while i < n
        invariant
            n == u.service_keys.len(),
            i <= n,
            forall|j: int| 0 <= j < i ==> !holds_raw(#[trigger] u@.service_keys[j]),
        decreases n - i,
    {
        if is_raw(&u.service_keys[i]) {
            assert(holds_raw(u@.service_keys[i as int]));
            return true;
        }
        i += 1;
    }
    false
}

/// The user records after migration, the keystore imports that must happen
/// before they are written back, and whether any record changed (only then
/// are they written back).
pub struct UsersMigration {
    pub users: Vec<UserKeys>,
    pub imports: Vec<KeyImport>,
    pub changed: bool,
}

/// Migrates every user record: each raw key is replaced by the user's
/// `ids:<user_id>` handle, each raw auth key gives one import of 2048 bits,
/// and `changed` tells whether any record held a raw key.
pub fn migrate_users(users: &Vec<UserKeys>) -> (r: UsersMigration)
    ensures
        r.users@.len() == users@.len(),
        forall|i: int| 0 <= i < users@.len() ==> (#[trigger] r.users@[i])@ == migrated_user(users@[i]@),
        imports_view(r.imports@) == users_imports(users_view(users@)),
        r.changed == users_changed(users_view(users@)),
{
    let n = users.len();
    let mut out: Vec<UserKeys> = Vec::new();
    let mut imports: Vec<KeyImport> = Vec::new();
    let mut changed = false;
    let mut i: usize = 0;
    while i < n
        invariant
            n == users.len(),
            i <= n,
            out.len() == i,
            forall|j: int| 0 <= j < i ==> (#[trigger] out@[j])@ == migrated_user(users@[j]@),
            imports_view(imports@) == users_imports(users_view(users@).subrange(0, i as int)),
            changed == users_changed(users_view(users@).subrange(0, i as int)),
        decreases n - i,
    {
        let ghost before = users_view(users@).subrange(0, i as int);
        let ghost after = users_view(users@).subrange(0, i + 1);
        assert(after.drop_last() =~= before);
        assert(after.last() == users@[i as int]@);
        let raw = has_raw_key(&users[i]);
        let (u, imp) = migrate_user(&users[i]);
        let ghost old_imports = imports@;
        match imp {
            Some(x) => {
                imports.push(x);
            },
            None => {},
        }
        assert(imports_view(imports@) =~= imports_view(old_imports) + imports_view(option_seq(imp)));
        out.push(u);
        proof {
            if raw {
                assert(user_has_raw(after[i as int]));
            }
            if users_changed(after) && !raw {
                let k = choose|k: int| 0 <= k < after.len() && user_has_raw(after[k]);
                assert(before[k] == after[k]);
            }
            if users_changed(before) {
                let k = choose|k: int| 0 <= k < before.len() && user_has_raw(before[k]);
                assert(before[k] == after[k]);
            }
        }
        changed = changed || raw;
        i += 1;
    }
    assert(users_view(users@).subrange(0, n as int) =~= users_view(users@));
    UsersMigration { users: out, imports, changed }
}

/// After one migration no key field of a user record holds raw bytes: each
/// is either untouched or a handle, never both.
pub proof fn lemma_no_raw_key_after_migration(u: UserView)
    ensures
        !holds_raw(migrated_user(u).auth_key),
        forall|j: int| 0 <= j < u.service_keys.len() ==> !holds_raw(#[trigger] migrated_user(u).service_keys[j]),
        !user_has_raw(migrated_user(u)),
{
}

/// Migrating records a second time changes nothing: the records stay as they
/// are, no record counts as changed (so nothing is written back), and no key
/// is imported again.
pub proof fn lemma_migration_idempotent(us: Seq<UserView>)
    ensures
        us.map_values(|u: UserView| migrated_user(u)).map_values(|u: UserView| migrated_user(u))
            == us.map_values(|u: UserView| migrated_user(u)),
        !users_changed(us.map_values(|u: UserView| migrated_user(u))),
        users_imports(us.map_values(|u: UserView| migrated_user(u))) == Seq::<ImportView>::empty(),
    decreases us.len(),
{
    let m = us.map_values(|u: UserView| migrated_user(u));
    assert forall|i: int| 0 <= i < m.len() implies migrated_user(m[i]) == m[i] by {
        assert(migrated_user(m[i]).service_keys =~= m[i].service_keys);
    }
    assert(m.map_values(|u: UserView| migrated_user(u)) =~= m);
    assert forall|i: int| 0 <= i < m.len() implies !user_has_raw(m[i]) by {
        lemma_no_raw_key_after_migration(us[i]);
    }
    if us.len() > 0 {
        lemma_migration_idempotent(us.drop_last());
        assert(us.drop_last().map_values(|u: UserView| migrated_user(u)) =~= m.drop_last());
        lemma_no_raw_key_after_migration(us.last());
        assert(user_imports(m.last()) =~= Seq::<ImportView>::empty());
        assert(users_imports(m) =~= Seq::<ImportView>::empty());
    } else {
        assert(users_imports(m) =~= Seq::<ImportView>::empty());
    }
}

/// Migrating the hardware record a second time changes nothing and imports
/// nothing.
pub proof fn lemma_hardware_migration_idempotent(k: Option<KeyState>, serial: Seq<char>)
    ensures
        !holds_raw(migrated_key(k, activation_handle_of(serial))),
        migrated_key(migrated_key(k, activation_handle_of(serial)), activation_handle_of(serial))
            == migrated_key(k, activation_handle_of(serial)),
{
}

pub open spec fn option_seq<T>(o: Option<T>) -> Seq<T> {
    match o {
        Some(x) => seq![x],
        None => seq![],
    }
}

} // verus!
