//! Extensions as the administration service manages them.

use vstd::prelude::*;
use crate::text::{trim_ws, trim_ws_exec, str_chars, push_all, chars_to_string};

verus! {

/// An extension as listed: its settings and whether it is registered now.
pub struct Extension {
    pub id: i64,
    pub extension_number: String,
    pub password: String,
    pub display_name: String,
    pub email: Option<String>,
    pub record_calls: i64,
    pub is_active: i64,
    pub qualify_frequency: i64,
    pub nat_mode: String,
    pub min_expires: i64,
    pub max_expires: i64,
    pub auth_required: i64,
    pub max_concurrent_logins: i64,
    pub allowed_transport: String,
    pub is_registered: bool,
}

/// A request to create an extension; what it leaves out takes a default.
pub struct CreateExtensionRequest {
    pub extension_number: String,
    pub password: Option<String>,
    pub display_name: String,
    pub email: Option<String>,
    pub record_calls: Option<bool>,
    pub qualify_frequency: Option<i64>,
    pub nat_mode: Option<String>,
    pub min_expires: Option<i64>,
    pub max_expires: Option<i64>,
    pub auth_required: Option<bool>,
    pub max_concurrent_logins: Option<i64>,
    pub allowed_transport: Option<String>,
}

/// A request to change an extension; only what it sets changes.
pub struct UpdateExtensionRequest {
    pub password: Option<String>,
    pub display_name: Option<String>,
    pub email: Option<String>,
    pub record_calls: Option<bool>,
    pub is_active: Option<bool>,
    pub qualify_frequency: Option<i64>,
    pub nat_mode: Option<String>,
    pub min_expires: Option<i64>,
    pub max_expires: Option<i64>,
    pub auth_required: Option<bool>,
    pub max_concurrent_logins: Option<i64>,
    pub allowed_transport: Option<String>,
}

/// The values stored for a new extension.
pub struct NewExtension {
    pub extension_number: String,
    pub password: String,
    pub display_name: String,
    pub email: Option<String>,
    pub record_calls: i64,
    pub qualify_frequency: i64,
    pub nat_mode: String,
    pub min_expires: i64,
    pub max_expires: i64,
    pub auth_required: i64,
    pub max_concurrent_logins: i64,
    pub allowed_transport: String,
}

pub open spec fn flag(b: bool) -> i64 {
    if b { 1 } else { 0 }
}

/// The password of a new extension: the one requested when it is not blank,
/// otherwise the extension number followed by `100`.
pub open spec fn new_password(number: Seq<char>, requested: Option<Seq<char>>) -> Seq<char> {
    match requested {
        Some(p) => if trim_ws(p).len() > 0 { p } else { number + seq!['1', '0', '0'] },
        None => number + seq!['1', '0', '0'],
    }
}

pub open spec fn auto_text() -> Seq<char> {
    seq!['a', 'u', 't', 'o']
}

pub open spec fn all_transports_text() -> Seq<char> {
    seq!['u', 'd', 'p', ',', 't', 'c', 'p', ',', 't', 'l', 's', ',', 'w', 's']
}

fn flag_exec(b: bool) -> (r: i64)
    ensures
        r == flag(b),
{
    if b { 1 } else { 0 }
}

/// The values stored for a new extension: what the request gives, and otherwise
/// no recording, qualify every 60 s, NAT mode `auto`, expiry between 60 s and
/// 3600 s, authentication required, one login, every transport, and the default
/// password.
pub fn new_extension_from(payload: CreateExtensionRequest) -> (e: NewExtension)
    ensures
        e.extension_number == payload.extension_number,
        e.display_name == payload.display_name,
        e.email == payload.email,
        e.password@ == new_password(
            payload.extension_number@,
            match payload.password {
                Some(p) => Some(p@),
                None => None,
            },
        ),
        e.record_calls == flag(
            match payload.record_calls {
                Some(b) => b,
                None => false,
            },
        ),
        e.qualify_frequency == match payload.qualify_frequency {
            Some(q) => q,
            None => 60,
        },
        e.nat_mode@ == match payload.nat_mode {
            Some(n) => n@,
            None => auto_text(),
        },
        e.min_expires == match payload.min_expires {
            Some(v) => v,
            None => 60,
        },
        e.max_expires == match payload.max_expires {
            Some(v) => v,
            None => 3600,
        },
        e.auth_required == flag(
            match payload.auth_required {
                Some(b) => b,
                None => true,
            },
        ),
        e.max_concurrent_logins == match payload.max_concurrent_logins {
            Some(v) => v,
            None => 1,
        },
        e.allowed_transport@ == match payload.allowed_transport {
            Some(t) => t@,
            None => all_transports_text(),
        },
{
    let record_calls = flag_exec(
        match payload.record_calls {
            Some(b) => b,
            None => false,
        },
    );
    let auth_required = flag_exec(
        match payload.auth_required {
            Some(b) => b,
            None => true,
        },
    );
    let nat_mode = match payload.nat_mode {
        Some(n) => n,
        None => {
            let v = vec!['a', 'u', 't', 'o'];
            assert(v@ =~= auto_text());
            chars_to_string(&v)
        },
    };
    let allowed_transport = match payload.allowed_transport {
        Some(t) => t,
        None => {
            let v = vec!['u', 'd', 'p', ',', 't', 'c', 'p', ',', 't', 'l', 's', ',', 'w', 's'];
            assert(v@ =~= all_transports_text());
            chars_to_string(&v)
        },
    };
    let number_chars = str_chars(payload.extension_number.as_str());
    let password = match payload.password {
        Some(p) => {
            let trimmed = trim_ws_exec(&str_chars(p.as_str()));
            if trimmed.len() > 0 {
                p
            } else {
                let mut v = number_chars.clone();
                push_all(&mut v, &['1', '0', '0']);
                assert(v@ =~= payload.extension_number@ + seq!['1', '0', '0']);
                chars_to_string(&v)
            }
        },
        None => {
            let mut v = number_chars.clone();
            push_all(&mut v, &['1', '0', '0']);
            assert(v@ =~= payload.extension_number@ + seq!['1', '0', '0']);
            chars_to_string(&v)
        },
    };
    NewExtension {
        extension_number: payload.extension_number,
        password,
        display_name: payload.display_name,
        email: payload.email,
        record_calls,
        qualify_frequency: match payload.qualify_frequency {
            Some(q) => q,
            None => 60,
        },
        nat_mode,
        min_expires: match payload.min_expires {
            Some(v) => v,
            None => 60,
        },
        max_expires: match payload.max_expires {
            Some(v) => v,
            None => 3600,
        },
        auth_required,
        max_concurrent_logins: match payload.max_concurrent_logins {
            Some(v) => v,
            None => 1,
        },
        allowed_transport,
    }
}

/// A value bound to a `?` of an SQL statement.
pub enum SqlValue {
    Text(String),
    Int(i64),
}

pub enum SqlValueView {
    Text(Seq<char>),
    Int(i64),
}

impl View for SqlValue {
    type V = SqlValueView;

    open spec fn view(&self) -> SqlValueView {
        match self {
            SqlValue::Text(s) => SqlValueView::Text(s@),
            SqlValue::Int(i) => SqlValueView::Int(*i),
        }
    }
}

/// An SQL statement and the values bound to its `?`s, in order.
pub struct SqlUpdate {
    pub sql: String,
    pub binds: Vec<SqlValue>,
}

/// One `column = ?` of an update, with its value.
pub struct UpdateItem {
    pub assignment: Seq<char>,
    pub value: SqlValueView,
}

pub open spec fn text_item(column: Seq<char>, v: Option<String>) -> Seq<UpdateItem> {
    match v {
        Some(s) => seq![UpdateItem { assignment: column + " = ?"@, value: SqlValueView::Text(s@) }],
        None => Seq::empty(),
    }
}

pub open spec fn int_item(column: Seq<char>, v: Option<i64>) -> Seq<UpdateItem> {
    match v {
        Some(i) => seq![UpdateItem { assignment: column + " = ?"@, value: SqlValueView::Int(i) }],
        None => Seq::empty(),
    }
}

pub open spec fn flag_item(column: Seq<char>, v: Option<bool>) -> Seq<UpdateItem> {
    match v {
        Some(b) => seq![UpdateItem { assignment: column + " = ?"@, value: SqlValueView::Int(flag(b)) }],
        None => Seq::empty(),
    }
}

/// The assignments an update request makes, in this order: display name,
/// password, email, recording, active, qualify frequency, NAT mode, minimum and
/// maximum expiry, authentication, logins, transports.
pub open spec fn update_items(p: UpdateExtensionRequest) -> Seq<UpdateItem> {
    text_item("display_name"@, p.display_name) + text_item("password"@, p.password) + text_item(
        "email"@,
        p.email,
    ) + flag_item("record_calls"@, p.record_calls) + flag_item("is_active"@, p.is_active)
        + int_item("qualify_frequency"@, p.qualify_frequency) + text_item("nat_mode"@, p.nat_mode)
        + int_item("min_expires"@, p.min_expires) + int_item("max_expires"@, p.max_expires)
        + flag_item("auth_required"@, p.auth_required) + int_item(
        "max_concurrent_logins"@,
        p.max_concurrent_logins,
    ) + text_item("allowed_transport"@, p.allowed_transport)
}

/// The assignments joined by `, `.
pub open spec fn join_assignments(items: Seq<UpdateItem>) -> Seq<char>
    decreases items.len(),
{
    if items.len() == 0 {
        Seq::empty()
    } else if items.len() == 1 {
        items[0].assignment
    } else {
        join_assignments(items.drop_last()) + seq![',', ' '] + items.last().assignment
    }
}

/// The statement for an update: `UPDATE extensions SET` the assignments
/// `WHERE id = ?`, binding their values and then the id.
pub open spec fn update_statement(items: Seq<UpdateItem>) -> Seq<char> {
    "UPDATE extensions SET "@ + join_assignments(items) + " WHERE id = ?"@
}

pub open spec fn update_binds(items: Seq<UpdateItem>, id: i64) -> Seq<SqlValueView> {
    items.map_values(|it: UpdateItem| it.value).push(SqlValueView::Int(id))
}

struct Builder {
    sql_tail: Vec<char>,
    binds: Vec<SqlValue>,
    count: usize,
    ghost_items: Ghost<Seq<UpdateItem>>,
}

impl Builder {
    spec fn holds(&self, items: Seq<UpdateItem>) -> bool {
        &&& self.ghost_items@ == items
        &&& self.sql_tail@ == join_assignments(items)
        &&& self.binds@.map_values(|v: SqlValue| v@) == items.map_values(|it: UpdateItem| it.value)
        &&& self.count as int == items.len()
    }

    fn add(&mut self, column: &str, value: SqlValue)
        requires
            old(self).holds(old(self).ghost_items@),
            old(self).count < usize::MAX,
        ensures
            final(self).holds(
                old(self).ghost_items@.push(
                    UpdateItem { assignment: column@ + " = ?"@, value: value@ },
                ),
            ),
    {
        let ghost items = self.ghost_items@;
        let ghost item = UpdateItem { assignment: column@ + " = ?"@, value: value@ };
        let ghost new_items = items.push(item);
        let mut assignment = str_chars(column);
        push_all(&mut assignment, &str_chars(" = ?"));
        if self.count > 0 {
            self.sql_tail.push(',');
            self.sql_tail.push(' ');
        }
        push_all(&mut self.sql_tail, &assignment);
        let ghost vbefore = self.binds@;
        let ghost vv = value@;
        self.binds.push(value);
        assert(self.binds@.map_values(|v: SqlValue| v@) =~= vbefore.map_values(|v: SqlValue| v@).push(vv));
        self.count = self.count + 1;
        self.ghost_items = Ghost(new_items);
        assert(new_items.drop_last() =~= items);
        assert(self.sql_tail@ =~= join_assignments(new_items));
        assert(self.binds@.map_values(|v: SqlValue| v@) =~= new_items.map_values(
            |it: UpdateItem| it.value,
        ));
    }
}

fn add_text(b: &mut Builder, column: &str, v: &Option<String>)
    requires
        old(b).holds(old(b).ghost_items@),
        old(b).count < 100,
    ensures
        final(b).holds(old(b).ghost_items@ + text_item(column@, *v)),
        final(b).count <= old(b).count + 1,
{
    match v {
        Some(s) => {
            let ghost before = b.ghost_items@;
            b.add(column, SqlValue::Text(s.clone()));
            assert(before + text_item(column@, *v) =~= before.push(text_item(column@, *v)[0]));
        },
        None => {
            assert(old(b).ghost_items@ + Seq::<UpdateItem>::empty() =~= old(b).ghost_items@);
        },
    }
}

fn add_int(b: &mut Builder, column: &str, v: Option<i64>)
    requires
        old(b).holds(old(b).ghost_items@),
        old(b).count < 100,
    ensures
        final(b).holds(old(b).ghost_items@ + int_item(column@, v)),
        final(b).count <= old(b).count + 1,
{
    match v {
        Some(i) => {
            let ghost before = b.ghost_items@;
            b.add(column, SqlValue::Int(i));
            assert(before + int_item(column@, v) =~= before.push(int_item(column@, v)[0]));
        },
        None => {
            assert(old(b).ghost_items@ + Seq::<UpdateItem>::empty() =~= old(b).ghost_items@);
        },
    }
}

fn add_flag(b: &mut Builder, column: &str, v: Option<bool>)
    requires
        old(b).holds(old(b).ghost_items@),
        old(b).count < 100,
    ensures
        final(b).holds(old(b).ghost_items@ + flag_item(column@, v)),
        final(b).count <= old(b).count + 1,
{
    match v {
        Some(x) => {
            let ghost before = b.ghost_items@;
            b.add(column, SqlValue::Int(flag_exec(x)));
            assert(before + flag_item(column@, v) =~= before.push(flag_item(column@, v)[0]));
        },
        None => {
            assert(old(b).ghost_items@ + Seq::<UpdateItem>::empty() =~= old(b).ghost_items@);
        },
    }
}

/// The statement that applies an update request to extension `id`, with its
/// values; none when the request changes nothing.
pub fn build_extension_update(payload: &UpdateExtensionRequest, id: i64) -> (r: Option<SqlUpdate>)
    ensures
        update_items(*payload).len() == 0 <==> r is None,
        r matches Some(u) ==> u.sql@ == update_statement(update_items(*payload))
            && u.binds@.map_values(|v: SqlValue| v@) == update_binds(update_items(*payload), id),
{
    let mut b = Builder {
        sql_tail: Vec::new(),
        binds: Vec::new(),
        count: 0,
        ghost_items: Ghost(Seq::empty()),
    };
    assert(b.sql_tail@ =~= join_assignments(Seq::<UpdateItem>::empty()));
    assert(b.binds@.map_values(|v: SqlValue| v@) =~= Seq::<UpdateItem>::empty().map_values(
        |it: UpdateItem| it.value,
    ));
    add_text(&mut b, "display_name", &payload.display_name);
    add_text(&mut b, "password", &payload.password);
    add_text(&mut b, "email", &payload.email);
    add_flag(&mut b, "record_calls", payload.record_calls);
    add_flag(&mut b, "is_active", payload.is_active);
    add_int(&mut b, "qualify_frequency", payload.qualify_frequency);
    add_text(&mut b, "nat_mode", &payload.nat_mode);
    add_int(&mut b, "min_expires", payload.min_expires);
    add_int(&mut b, "max_expires", payload.max_expires);
    add_flag(&mut b, "auth_required", payload.auth_required);
    add_int(&mut b, "max_concurrent_logins", payload.max_concurrent_logins);
    add_text(&mut b, "allowed_transport", &payload.allowed_transport);
    assert(b.ghost_items@ =~= update_items(*payload));
    if b.count == 0 {
        return None;
    }
    let mut sql = str_chars("UPDATE extensions SET ");
    push_all(&mut sql, &b.sql_tail);
    push_all(&mut sql, &str_chars(" WHERE id = ?"));
    let ghost before = b.binds@;
    let mut binds = b.binds;
    binds.push(SqlValue::Int(id));
    assert(binds@.map_values(|v: SqlValue| v@) =~= before.map_values(|v: SqlValue| v@).push(
        SqlValueView::Int(id),
    ));
    Some(SqlUpdate { sql: chars_to_string(&sql), binds })
}

} // verus!
