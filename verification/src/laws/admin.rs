//! The administration service's update statements.

use vstd::prelude::*;
use crate::admin::dialplan::{DialplanRule, same_name_and_pattern, names_and_patterns_unique};
use crate::admin::extensions::{
    UpdateExtensionRequest, UpdateItem, update_items, update_statement, update_binds, join_assignments,
    text_item, int_item, flag_item, SqlValueView,
};

verus! {

/// How many times `c` occurs in `s`.
pub open spec fn count_char(s: Seq<char>, c: char) -> nat
    decreases s.len(),
{
    if s.len() == 0 {
        0
    } else {
        count_char(s.drop_last(), c) + if s.last() == c { 1nat } else { 0nat }
    }
}

proof fn lemma_count_absent(s: Seq<char>, c: char)
    requires
        !s.contains(c),
    ensures
        count_char(s, c) == 0,
    decreases s.len(),
{
    if s.len() > 0 {
        assert(s.last() != c) by {
            if s.last() == c {
                assert(s[s.len() - 1] == c);
            }
        }
        assert(!s.drop_last().contains(c)) by {
            if s.drop_last().contains(c) {
                let i = choose|i: int| 0 <= i < s.drop_last().len() && s.drop_last()[i] == c;
                assert(s[i] == c);
            }
        }
        lemma_count_absent(s.drop_last(), c);
    }
}

proof fn lemma_count_concat(a: Seq<char>, b: Seq<char>, c: char)
    ensures
        count_char(a + b, c) == count_char(a, c) + count_char(b, c),
    decreases b.len(),
{
    if b.len() == 0 {
        assert(a + b =~= a);
    } else {
        assert((a + b).drop_last() =~= a + b.drop_last());
        assert((a + b).last() == b.last());
        lemma_count_concat(a, b.drop_last(), c);
    }
}

/// A text that ends in the one `?` it holds.
proof fn lemma_count_one_at_end(s: Seq<char>)
    requires
        s.len() > 0,
        s.last() == '?',
        !s.drop_last().contains('?'),
    ensures
        count_char(s, '?') == 1,
{
    lemma_count_absent(s.drop_last(), '?');
}

/// Every assignment of `items` holds exactly one `?`.
pub open spec fn one_mark_each(items: Seq<UpdateItem>) -> bool {
    forall|i: int| 0 <= i < items.len() ==> count_char(#[trigger] items[i].assignment, '?') == 1
}

proof fn lemma_assignment_mark(column: Seq<char>)
    requires
        !column.contains('?'),
    ensures
        count_char(column + " = ?"@, '?') == 1,
{
    reveal_strlit(" = ?");
    let tail = " = ?"@;
    assert(tail.drop_last() =~= seq![' ', '=', ' ']);
    assert(!tail.drop_last().contains('?')) by {
        if tail.drop_last().contains('?') {
            let i = choose|i: int| 0 <= i < tail.drop_last().len() && tail.drop_last()[i] == '?';
        }
    }
    lemma_count_one_at_end(tail);
    lemma_count_absent(column, '?');
    lemma_count_concat(column, tail, '?');
}

proof fn lemma_items_marks(column: Seq<char>, p: UpdateExtensionRequest)
    requires
        !column.contains('?'),
    ensures
        one_mark_each(text_item(column, p.display_name)),
        one_mark_each(text_item(column, p.password)),
        one_mark_each(text_item(column, p.email)),
        one_mark_each(text_item(column, p.nat_mode)),
        one_mark_each(text_item(column, p.allowed_transport)),
        one_mark_each(flag_item(column, p.record_calls)),
        one_mark_each(flag_item(column, p.is_active)),
        one_mark_each(flag_item(column, p.auth_required)),
        one_mark_each(int_item(column, p.qualify_frequency)),
        one_mark_each(int_item(column, p.min_expires)),
        one_mark_each(int_item(column, p.max_expires)),
        one_mark_each(int_item(column, p.max_concurrent_logins)),
{
    lemma_assignment_mark(column);
}

proof fn lemma_marks_concat(a: Seq<UpdateItem>, b: Seq<UpdateItem>)
    requires
        one_mark_each(a),
        one_mark_each(b),
    ensures
        one_mark_each(a + b),
{
    assert forall|i: int| 0 <= i < (a + b).len() implies count_char(#[trigger] (a + b)[i].assignment, '?') == 1 by {
        if i < a.len() {
            assert((a + b)[i] == a[i]);
        } else {
            assert((a + b)[i] == b[i - a.len()]);
        }
    }
}

proof fn lemma_join_marks(items: Seq<UpdateItem>)
    requires
        one_mark_each(items),
    ensures
        count_char(join_assignments(items), '?') == items.len(),
    decreases items.len(),
{
    if items.len() == 1 {
        assert(count_char(items[0].assignment, '?') == 1);
    } else if items.len() > 1 {
        let init = items.drop_last();
        assert(one_mark_each(init)) by {
            assert forall|i: int| 0 <= i < init.len() implies count_char(#[trigger] init[i].assignment, '?') == 1 by {
                assert(init[i] == items[i]);
            }
        }
        lemma_join_marks(init);
        assert(count_char(items.last().assignment, '?') == 1) by {
            assert(items.last() == items[items.len() - 1]);
        }
        let sep = seq![',', ' '];
        assert(!sep.contains('?')) by {
            if sep.contains('?') {
                let i = choose|i: int| 0 <= i < sep.len() && sep[i] == '?';
            }
        }
        lemma_count_absent(sep, '?');
        lemma_count_concat(join_assignments(init), sep, '?');
        lemma_count_concat(join_assignments(init) + sep, items.last().assignment, '?');
    }
}

proof fn lemma_columns_unmarked()
    ensures
        !"display_name"@.contains('?'),
        !"password"@.contains('?'),
        !"email"@.contains('?'),
        !"record_calls"@.contains('?'),
        !"is_active"@.contains('?'),
        !"qualify_frequency"@.contains('?'),
        !"nat_mode"@.contains('?'),
        !"min_expires"@.contains('?'),
        !"max_expires"@.contains('?'),
        !"auth_required"@.contains('?'),
        !"max_concurrent_logins"@.contains('?'),
        !"allowed_transport"@.contains('?'),
        !"UPDATE extensions SET "@.contains('?'),
{
    reveal_strlit("display_name");
    reveal_strlit("password");
    reveal_strlit("email");
    reveal_strlit("record_calls");
    reveal_strlit("is_active");
    reveal_strlit("qualify_frequency");
    reveal_strlit("nat_mode");
    reveal_strlit("min_expires");
    reveal_strlit("max_expires");
    reveal_strlit("auth_required");
    reveal_strlit("max_concurrent_logins");
    reveal_strlit("allowed_transport");
    reveal_strlit("UPDATE extensions SET ");
}

/// An extension update binds exactly one value to each `?` of its statement: one
/// per assignment, then the id.
pub proof fn law_update_binds_every_placeholder(p: UpdateExtensionRequest, id: i64)
    ensures
        count_char(update_statement(update_items(p)), '?') == update_binds(update_items(p), id).len(),
{
    lemma_columns_unmarked();
    lemma_items_marks("display_name"@, p);
    lemma_items_marks("password"@, p);
    lemma_items_marks("email"@, p);
    lemma_items_marks("record_calls"@, p);
    lemma_items_marks("is_active"@, p);
    lemma_items_marks("qualify_frequency"@, p);
    lemma_items_marks("nat_mode"@, p);
    lemma_items_marks("min_expires"@, p);
    lemma_items_marks("max_expires"@, p);
    lemma_items_marks("auth_required"@, p);
    lemma_items_marks("max_concurrent_logins"@, p);
    lemma_items_marks("allowed_transport"@, p);
    let a1 = text_item("display_name"@, p.display_name);
    let a2 = a1 + text_item("password"@, p.password);
    let a3 = a2 + text_item("email"@, p.email);
    let a4 = a3 + flag_item("record_calls"@, p.record_calls);
    let a5 = a4 + flag_item("is_active"@, p.is_active);
    let a6 = a5 + int_item("qualify_frequency"@, p.qualify_frequency);
    let a7 = a6 + text_item("nat_mode"@, p.nat_mode);
    let a8 = a7 + int_item("min_expires"@, p.min_expires);
    let a9 = a8 + int_item("max_expires"@, p.max_expires);
    let a10 = a9 + flag_item("auth_required"@, p.auth_required);
    let a11 = a10 + int_item("max_concurrent_logins"@, p.max_concurrent_logins);
    let a12 = a11 + text_item("allowed_transport"@, p.allowed_transport);
    lemma_marks_concat(a1, text_item("password"@, p.password));
    lemma_marks_concat(a2, text_item("email"@, p.email));
    lemma_marks_concat(a3, flag_item("record_calls"@, p.record_calls));
    lemma_marks_concat(a4, flag_item("is_active"@, p.is_active));
    lemma_marks_concat(a5, int_item("qualify_frequency"@, p.qualify_frequency));
    lemma_marks_concat(a6, text_item("nat_mode"@, p.nat_mode));
    lemma_marks_concat(a7, int_item("min_expires"@, p.min_expires));
    lemma_marks_concat(a8, int_item("max_expires"@, p.max_expires));
    lemma_marks_concat(a9, flag_item("auth_required"@, p.auth_required));
    lemma_marks_concat(a10, int_item("max_concurrent_logins"@, p.max_concurrent_logins));
    lemma_marks_concat(a11, text_item("allowed_transport"@, p.allowed_transport));
    let items = update_items(p);
    assert(items == a12);
    lemma_join_marks(items);

    reveal_strlit(" WHERE id = ?");
    let tail = " WHERE id = ?"@;
    assert(tail.drop_last() =~= seq![' ', 'W', 'H', 'E', 'R', 'E', ' ', 'i', 'd', ' ', '=', ' ']);
    assert(!tail.drop_last().contains('?')) by {
        if tail.drop_last().contains('?') {
            let i = choose|i: int| 0 <= i < tail.drop_last().len() && tail.drop_last()[i] == '?';
        }
    }
    lemma_count_one_at_end(tail);
    lemma_count_absent("UPDATE extensions SET "@, '?');
    lemma_count_concat("UPDATE extensions SET "@, join_assignments(items), '?');
    lemma_count_concat("UPDATE extensions SET "@ + join_assignments(items), tail, '?');
}

/// Adding a rule whose name and pattern no rule has keeps every name and pattern
/// pair unique (rules are deduplicated).
pub proof fn law_dialplan_rules_stay_unique(rules: Seq<DialplanRule>, new_rule: DialplanRule)
    requires
        names_and_patterns_unique(rules),
        !(exists|i: int| 0 <= i < rules.len() && same_name_and_pattern(
            #[trigger] rules[i],
            new_rule.rule_name@,
            new_rule.pattern@,
        )),
    ensures
        names_and_patterns_unique(rules.push(new_rule)),
{
    let all = rules.push(new_rule);
    assert forall|i: int, j: int|
        0 <= i < all.len() && 0 <= j < all.len() && i != j implies !same_name_and_pattern(
            #[trigger] all[i],
            (#[trigger] all[j]).rule_name@,
            all[j].pattern@,
        ) by {
        if i < rules.len() && j < rules.len() {
            assert(all[i] == rules[i] && all[j] == rules[j]);
        } else if i < rules.len() {
            assert(all[i] == rules[i] && all[j] == new_rule);
        } else {
            assert(all[i] == new_rule && all[j] == rules[j]);
            if same_name_and_pattern(all[i], all[j].rule_name@, all[j].pattern@) {
                assert(same_name_and_pattern(rules[j], new_rule.rule_name@, new_rule.pattern@));
            }
        }
    }
}

// ---------------------------------------------------------------------------
// Each column binds its own value.
// ---------------------------------------------------------------------------

/// `column = ?`.
pub open spec fn assignment_of(column: Seq<char>) -> Seq<char> {
    column + " = ?"@
}

/// The value a text field asks to store.
pub open spec fn text_value(v: Option<String>) -> Option<SqlValueView> {
    match v {
        Some(s) => Some(SqlValueView::Text(s@)),
        None => None,
    }
}

/// The value a number field asks to store.
pub open spec fn int_value(v: Option<i64>) -> Option<SqlValueView> {
    match v {
        Some(i) => Some(SqlValueView::Int(i)),
        None => None,
    }
}

/// The value a flag asks to store: 1 for true, 0 for false.
pub open spec fn flag_value(v: Option<bool>) -> Option<SqlValueView> {
    match v {
        Some(b) => Some(SqlValueView::Int(if b { 1 } else { 0 })),
        None => None,
    }
}

/// The update sets `column` exactly when `value` is given, and binds that value to it.
pub open spec fn binds_column(items: Seq<UpdateItem>, column: Seq<char>, value: Option<SqlValueView>) -> bool {
    &&& (exists|i: int| 0 <= i < items.len() && (#[trigger] items[i]).assignment == assignment_of(column))
        <==> value is Some
    &&& forall|i: int|
        0 <= i < items.len() && (#[trigger] items[i]).assignment == assignment_of(column) ==> Some(
            items[i].value,
        ) == value
}

/// The one item (or none) that sets `column`.
spec fn item_for(column: Seq<char>, value: Option<SqlValueView>) -> Seq<UpdateItem> {
    match value {
        Some(v) => seq![UpdateItem { assignment: assignment_of(column), value: v }],
        None => Seq::empty(),
    }
}

proof fn lemma_assignment_injective(a: Seq<char>, b: Seq<char>)
    requires
        assignment_of(a) == assignment_of(b),
    ensures
        a == b,
{
    reveal_strlit(" = ?");
    assert(assignment_of(a).len() == a.len() + 4);
    assert(assignment_of(b).len() == b.len() + 4);
    assert(a.len() == b.len());
    assert(a =~= assignment_of(a).take(a.len() as int));
    assert(b =~= assignment_of(b).take(b.len() as int));
}

/// Adding the item of a column that no item sets yet: the column now binds its value.
proof fn lemma_push_own_column(items: Seq<UpdateItem>, column: Seq<char>, value: Option<SqlValueView>)
    requires
        binds_column(items, column, None),
    ensures
        binds_column(items + item_for(column, value), column, value),
{
    let all = items + item_for(column, value);
    let n = items.len() as int;
    assert forall|i: int| 0 <= i < n implies #[trigger] all[i] == items[i] by {}
    assert forall|i: int| 0 <= i < n implies (#[trigger] items[i]).assignment != assignment_of(column) by {
        if items[i].assignment == assignment_of(column) {
            assert(Some(items[i].value) == None::<SqlValueView>);
        }
    }
    if value is Some {
        assert(all[n].assignment == assignment_of(column));
    }
}

proof fn lemma_other_column_unchanged(
    items: Seq<UpdateItem>,
    column: Seq<char>,
    value: Option<SqlValueView>,
    c: Seq<char>,
    v: Option<SqlValueView>,
)
    requires
        c != column,
    ensures
        binds_column(items + item_for(column, value), c, v) == binds_column(items, c, v),
{
    let all = items + item_for(column, value);
    let n = items.len() as int;
    if value is Some {
        assert(all[n].assignment != assignment_of(c)) by {
            assert(all[n].assignment == assignment_of(column));
            if all[n].assignment == assignment_of(c) {
                lemma_assignment_injective(c, column);
            }
        }
    }
    assert(all.len() == n || all.len() == n + 1);
    let ex_all = exists|i: int| 0 <= i < all.len() && (#[trigger] all[i]).assignment == assignment_of(c);
    let ex_items = exists|i: int| 0 <= i < items.len() && (#[trigger] items[i]).assignment == assignment_of(c);
    assert(ex_all == ex_items) by {
        if ex_all {
            let i = choose|i: int| 0 <= i < all.len() && (#[trigger] all[i]).assignment == assignment_of(c);
            assert(i < n);
            assert(all[i] == items[i]);
        }
        if ex_items {
            let i = choose|i: int| 0 <= i < items.len() && (#[trigger] items[i]).assignment == assignment_of(c);
            assert(all[i] == items[i]);
        }
    }
    let fa_all = forall|i: int|
        0 <= i < all.len() && (#[trigger] all[i]).assignment == assignment_of(c) ==> Some(all[i].value) == v;
    let fa_items = forall|i: int|
        0 <= i < items.len() && (#[trigger] items[i]).assignment == assignment_of(c) ==> Some(items[i].value)
            == v;
    assert(fa_all == fa_items) by {
        if fa_all {
            assert forall|i: int|
                0 <= i < items.len() && (#[trigger] items[i]).assignment == assignment_of(c) implies Some(
                items[i].value,
            ) == v by {
                assert(all[i] == items[i]);
            }
        }
        if fa_items {
            assert forall|i: int|
                0 <= i < all.len() && (#[trigger] all[i]).assignment == assignment_of(c) implies Some(
                all[i].value,
            ) == v by {
                assert(i < n);
                assert(all[i] == items[i]);
            }
        }
    }
}

/// The update's items, column by column.
spec fn update_parts(p: UpdateExtensionRequest) -> Seq<UpdateItem> {
    Seq::<UpdateItem>::empty() + item_for("display_name"@, text_value(p.display_name)) + item_for("password"@, text_value(p.password)) + item_for("email"@, text_value(p.email)) + item_for("record_calls"@, flag_value(p.record_calls)) + item_for("is_active"@, flag_value(p.is_active)) + item_for("qualify_frequency"@, int_value(p.qualify_frequency)) + item_for("nat_mode"@, text_value(p.nat_mode)) + item_for("min_expires"@, int_value(p.min_expires)) + item_for("max_expires"@, int_value(p.max_expires)) + item_for("auth_required"@, flag_value(p.auth_required)) + item_for("max_concurrent_logins"@, int_value(p.max_concurrent_logins)) + item_for("allowed_transport"@, text_value(p.allowed_transport))
}

proof fn lemma_update_parts(p: UpdateExtensionRequest)
    ensures
        update_items(p) == update_parts(p),
{
    assert(text_item("display_name"@, p.display_name) =~= item_for("display_name"@, text_value(p.display_name)));
    assert(text_item("password"@, p.password) =~= item_for("password"@, text_value(p.password)));
    assert(text_item("email"@, p.email) =~= item_for("email"@, text_value(p.email)));
    assert(flag_item("record_calls"@, p.record_calls) =~= item_for("record_calls"@, flag_value(p.record_calls)));
    assert(flag_item("is_active"@, p.is_active) =~= item_for("is_active"@, flag_value(p.is_active)));
    assert(int_item("qualify_frequency"@, p.qualify_frequency) =~= item_for("qualify_frequency"@, int_value(p.qualify_frequency)));
    assert(text_item("nat_mode"@, p.nat_mode) =~= item_for("nat_mode"@, text_value(p.nat_mode)));
    assert(int_item("min_expires"@, p.min_expires) =~= item_for("min_expires"@, int_value(p.min_expires)));
    assert(int_item("max_expires"@, p.max_expires) =~= item_for("max_expires"@, int_value(p.max_expires)));
    assert(flag_item("auth_required"@, p.auth_required) =~= item_for("auth_required"@, flag_value(p.auth_required)));
    assert(int_item("max_concurrent_logins"@, p.max_concurrent_logins) =~= item_for("max_concurrent_logins"@, int_value(p.max_concurrent_logins)));
    assert(text_item("allowed_transport"@, p.allowed_transport) =~= item_for("allowed_transport"@, text_value(p.allowed_transport)));
    assert(update_items(p) =~= update_parts(p));
}

proof fn lemma_binds_display_name(p: UpdateExtensionRequest)
    ensures
        binds_column(update_parts(p), "display_name"@, text_value(p.display_name)),
{
    reveal_strlit("display_name");
    let a0 = Seq::<UpdateItem>::empty();
    assert(binds_column(a0, "display_name"@, None));
    let a1 = a0 + item_for("display_name"@, text_value(p.display_name));
    lemma_push_own_column(a0, "display_name"@, text_value(p.display_name));
    let a2 = a1 + item_for("password"@, text_value(p.password));
    reveal_strlit("password");
    assert("display_name"@ != "password"@);
    lemma_other_column_unchanged(a1, "password"@, text_value(p.password), "display_name"@, text_value(p.display_name));
    let a3 = a2 + item_for("email"@, text_value(p.email));
    reveal_strlit("email");
    assert("display_name"@ != "email"@);
    lemma_other_column_unchanged(a2, "email"@, text_value(p.email), "display_name"@, text_value(p.display_name));
    let a4 = a3 + item_for("record_calls"@, flag_value(p.record_calls));
    reveal_strlit("record_calls");
    assert("display_name"@ != "record_calls"@) by {
        assert("display_name"@[0] != "record_calls"@[0]);
    }
    lemma_other_column_unchanged(a3, "record_calls"@, flag_value(p.record_calls), "display_name"@, text_value(p.display_name));
    let a5 = a4 + item_for("is_active"@, flag_value(p.is_active));
    reveal_strlit("is_active");
    assert("display_name"@ != "is_active"@);
    lemma_other_column_unchanged(a4, "is_active"@, flag_value(p.is_active), "display_name"@, text_value(p.display_name));
    let a6 = a5 + item_for("qualify_frequency"@, int_value(p.qualify_frequency));
    reveal_strlit("qualify_frequency");
    assert("display_name"@ != "qualify_frequency"@);
    lemma_other_column_unchanged(a5, "qualify_frequency"@, int_value(p.qualify_frequency), "display_name"@, text_value(p.display_name));
    let a7 = a6 + item_for("nat_mode"@, text_value(p.nat_mode));
    reveal_strlit("nat_mode");
    assert("display_name"@ != "nat_mode"@);
    lemma_other_column_unchanged(a6, "nat_mode"@, text_value(p.nat_mode), "display_name"@, text_value(p.display_name));
    let a8 = a7 + item_for("min_expires"@, int_value(p.min_expires));
    reveal_strlit("min_expires");
    assert("display_name"@ != "min_expires"@);
    lemma_other_column_unchanged(a7, "min_expires"@, int_value(p.min_expires), "display_name"@, text_value(p.display_name));
    let a9 = a8 + item_for("max_expires"@, int_value(p.max_expires));
    reveal_strlit("max_expires");
    assert("display_name"@ != "max_expires"@);
    lemma_other_column_unchanged(a8, "max_expires"@, int_value(p.max_expires), "display_name"@, text_value(p.display_name));
    let a10 = a9 + item_for("auth_required"@, flag_value(p.auth_required));
    reveal_strlit("auth_required");
    assert("display_name"@ != "auth_required"@);
    lemma_other_column_unchanged(a9, "auth_required"@, flag_value(p.auth_required), "display_name"@, text_value(p.display_name));
    let a11 = a10 + item_for("max_concurrent_logins"@, int_value(p.max_concurrent_logins));
    reveal_strlit("max_concurrent_logins");
    assert("display_name"@ != "max_concurrent_logins"@);
    lemma_other_column_unchanged(a10, "max_concurrent_logins"@, int_value(p.max_concurrent_logins), "display_name"@, text_value(p.display_name));
    let a12 = a11 + item_for("allowed_transport"@, text_value(p.allowed_transport));
    reveal_strlit("allowed_transport");
    assert("display_name"@ != "allowed_transport"@);
    lemma_other_column_unchanged(a11, "allowed_transport"@, text_value(p.allowed_transport), "display_name"@, text_value(p.display_name));
}

proof fn lemma_binds_password(p: UpdateExtensionRequest)
    ensures
        binds_column(update_parts(p), "password"@, text_value(p.password)),
{
    reveal_strlit("password");
    let a0 = Seq::<UpdateItem>::empty();
    assert(binds_column(a0, "password"@, None));
    let a1 = a0 + item_for("display_name"@, text_value(p.display_name));
    reveal_strlit("display_name");
    assert("password"@ != "display_name"@);
    lemma_other_column_unchanged(a0, "display_name"@, text_value(p.display_name), "password"@, None);
    let a2 = a1 + item_for("password"@, text_value(p.password));
    lemma_push_own_column(a1, "password"@, text_value(p.password));
    let a3 = a2 + item_for("email"@, text_value(p.email));
    reveal_strlit("email");
    assert("password"@ != "email"@);
    lemma_other_column_unchanged(a2, "email"@, text_value(p.email), "password"@, text_value(p.password));
    let a4 = a3 + item_for("record_calls"@, flag_value(p.record_calls));
    reveal_strlit("record_calls");
    assert("password"@ != "record_calls"@);
    lemma_other_column_unchanged(a3, "record_calls"@, flag_value(p.record_calls), "password"@, text_value(p.password));
    let a5 = a4 + item_for("is_active"@, flag_value(p.is_active));
    reveal_strlit("is_active");
    assert("password"@ != "is_active"@);
    lemma_other_column_unchanged(a4, "is_active"@, flag_value(p.is_active), "password"@, text_value(p.password));
    let a6 = a5 + item_for("qualify_frequency"@, int_value(p.qualify_frequency));
    reveal_strlit("qualify_frequency");
    assert("password"@ != "qualify_frequency"@);
    lemma_other_column_unchanged(a5, "qualify_frequency"@, int_value(p.qualify_frequency), "password"@, text_value(p.password));
    let a7 = a6 + item_for("nat_mode"@, text_value(p.nat_mode));
    reveal_strlit("nat_mode");
    assert("password"@ != "nat_mode"@) by {
        assert("password"@[0] != "nat_mode"@[0]);
    }
    lemma_other_column_unchanged(a6, "nat_mode"@, text_value(p.nat_mode), "password"@, text_value(p.password));
    let a8 = a7 + item_for("min_expires"@, int_value(p.min_expires));
    reveal_strlit("min_expires");
    assert("password"@ != "min_expires"@);
    lemma_other_column_unchanged(a7, "min_expires"@, int_value(p.min_expires), "password"@, text_value(p.password));
    let a9 = a8 + item_for("max_expires"@, int_value(p.max_expires));
    reveal_strlit("max_expires");
    assert("password"@ != "max_expires"@);
    lemma_other_column_unchanged(a8, "max_expires"@, int_value(p.max_expires), "password"@, text_value(p.password));
    let a10 = a9 + item_for("auth_required"@, flag_value(p.auth_required));
    reveal_strlit("auth_required");
    assert("password"@ != "auth_required"@);
    lemma_other_column_unchanged(a9, "auth_required"@, flag_value(p.auth_required), "password"@, text_value(p.password));
    let a11 = a10 + item_for("max_concurrent_logins"@, int_value(p.max_concurrent_logins));
    reveal_strlit("max_concurrent_logins");
    assert("password"@ != "max_concurrent_logins"@);
    lemma_other_column_unchanged(a10, "max_concurrent_logins"@, int_value(p.max_concurrent_logins), "password"@, text_value(p.password));
    let a12 = a11 + item_for("allowed_transport"@, text_value(p.allowed_transport));
    reveal_strlit("allowed_transport");
    assert("password"@ != "allowed_transport"@);
    lemma_other_column_unchanged(a11, "allowed_transport"@, text_value(p.allowed_transport), "password"@, text_value(p.password));
}

proof fn lemma_binds_email(p: UpdateExtensionRequest)
    ensures
        binds_column(update_parts(p), "email"@, text_value(p.email)),
{
    reveal_strlit("email");
    let a0 = Seq::<UpdateItem>::empty();
    assert(binds_column(a0, "email"@, None));
    let a1 = a0 + item_for("display_name"@, text_value(p.display_name));
    reveal_strlit("display_name");
    assert("email"@ != "display_name"@);
    lemma_other_column_unchanged(a0, "display_name"@, text_value(p.display_name), "email"@, None);
    let a2 = a1 + item_for("password"@, text_value(p.password));
    reveal_strlit("password");
    assert("email"@ != "password"@);
    lemma_other_column_unchanged(a1, "password"@, text_value(p.password), "email"@, None);
    let a3 = a2 + item_for("email"@, text_value(p.email));
    lemma_push_own_column(a2, "email"@, text_value(p.email));
    let a4 = a3 + item_for("record_calls"@, flag_value(p.record_calls));
    reveal_strlit("record_calls");
    assert("email"@ != "record_calls"@);
    lemma_other_column_unchanged(a3, "record_calls"@, flag_value(p.record_calls), "email"@, text_value(p.email));
    let a5 = a4 + item_for("is_active"@, flag_value(p.is_active));
    reveal_strlit("is_active");
    assert("email"@ != "is_active"@);
    lemma_other_column_unchanged(a4, "is_active"@, flag_value(p.is_active), "email"@, text_value(p.email));
    let a6 = a5 + item_for("qualify_frequency"@, int_value(p.qualify_frequency));
    reveal_strlit("qualify_frequency");
    assert("email"@ != "qualify_frequency"@);
    lemma_other_column_unchanged(a5, "qualify_frequency"@, int_value(p.qualify_frequency), "email"@, text_value(p.email));
    let a7 = a6 + item_for("nat_mode"@, text_value(p.nat_mode));
    reveal_strlit("nat_mode");
    assert("email"@ != "nat_mode"@);
    lemma_other_column_unchanged(a6, "nat_mode"@, text_value(p.nat_mode), "email"@, text_value(p.email));
    let a8 = a7 + item_for("min_expires"@, int_value(p.min_expires));
    reveal_strlit("min_expires");
    assert("email"@ != "min_expires"@);
    lemma_other_column_unchanged(a7, "min_expires"@, int_value(p.min_expires), "email"@, text_value(p.email));
    let a9 = a8 + item_for("max_expires"@, int_value(p.max_expires));
    reveal_strlit("max_expires");
    assert("email"@ != "max_expires"@);
    lemma_other_column_unchanged(a8, "max_expires"@, int_value(p.max_expires), "email"@, text_value(p.email));
    let a10 = a9 + item_for("auth_required"@, flag_value(p.auth_required));
    reveal_strlit("auth_required");
    assert("email"@ != "auth_required"@);
    lemma_other_column_unchanged(a9, "auth_required"@, flag_value(p.auth_required), "email"@, text_value(p.email));
    let a11 = a10 + item_for("max_concurrent_logins"@, int_value(p.max_concurrent_logins));
    reveal_strlit("max_concurrent_logins");
    assert("email"@ != "max_concurrent_logins"@);
    lemma_other_column_unchanged(a10, "max_concurrent_logins"@, int_value(p.max_concurrent_logins), "email"@, text_value(p.email));
    let a12 = a11 + item_for("allowed_transport"@, text_value(p.allowed_transport));
    reveal_strlit("allowed_transport");
    assert("email"@ != "allowed_transport"@);
    lemma_other_column_unchanged(a11, "allowed_transport"@, text_value(p.allowed_transport), "email"@, text_value(p.email));
}

proof fn lemma_binds_record_calls(p: UpdateExtensionRequest)
    ensures
        binds_column(update_parts(p), "record_calls"@, flag_value(p.record_calls)),
{
    reveal_strlit("record_calls");
    let a0 = Seq::<UpdateItem>::empty();
    assert(binds_column(a0, "record_calls"@, None));
    let a1 = a0 + item_for("display_name"@, text_value(p.display_name));
    reveal_strlit("display_name");
    assert("record_calls"@ != "display_name"@) by {
        assert("record_calls"@[0] != "display_name"@[0]);
    }
    lemma_other_column_unchanged(a0, "display_name"@, text_value(p.display_name), "record_calls"@, None);
    let a2 = a1 + item_for("password"@, text_value(p.password));
    reveal_strlit("password");
    assert("record_calls"@ != "password"@);
    lemma_other_column_unchanged(a1, "password"@, text_value(p.password), "record_calls"@, None);
    let a3 = a2 + item_for("email"@, text_value(p.email));
    reveal_strlit("email");
    assert("record_calls"@ != "email"@);
    lemma_other_column_unchanged(a2, "email"@, text_value(p.email), "record_calls"@, None);
    let a4 = a3 + item_for("record_calls"@, flag_value(p.record_calls));
    lemma_push_own_column(a3, "record_calls"@, flag_value(p.record_calls));
    let a5 = a4 + item_for("is_active"@, flag_value(p.is_active));
    reveal_strlit("is_active");
    assert("record_calls"@ != "is_active"@);
    lemma_other_column_unchanged(a4, "is_active"@, flag_value(p.is_active), "record_calls"@, flag_value(p.record_calls));
    let a6 = a5 + item_for("qualify_frequency"@, int_value(p.qualify_frequency));
    reveal_strlit("qualify_frequency");
    assert("record_calls"@ != "qualify_frequency"@);
    lemma_other_column_unchanged(a5, "qualify_frequency"@, int_value(p.qualify_frequency), "record_calls"@, flag_value(p.record_calls));
    let a7 = a6 + item_for("nat_mode"@, text_value(p.nat_mode));
    reveal_strlit("nat_mode");
    assert("record_calls"@ != "nat_mode"@);
    lemma_other_column_unchanged(a6, "nat_mode"@, text_value(p.nat_mode), "record_calls"@, flag_value(p.record_calls));
    let a8 = a7 + item_for("min_expires"@, int_value(p.min_expires));
    reveal_strlit("min_expires");
    assert("record_calls"@ != "min_expires"@);
    lemma_other_column_unchanged(a7, "min_expires"@, int_value(p.min_expires), "record_calls"@, flag_value(p.record_calls));
    let a9 = a8 + item_for("max_expires"@, int_value(p.max_expires));
    reveal_strlit("max_expires");
    assert("record_calls"@ != "max_expires"@);
    lemma_other_column_unchanged(a8, "max_expires"@, int_value(p.max_expires), "record_calls"@, flag_value(p.record_calls));
    let a10 = a9 + item_for("auth_required"@, flag_value(p.auth_required));
    reveal_strlit("auth_required");
    assert("record_calls"@ != "auth_required"@);
    lemma_other_column_unchanged(a9, "auth_required"@, flag_value(p.auth_required), "record_calls"@, flag_value(p.record_calls));
    let a11 = a10 + item_for("max_concurrent_logins"@, int_value(p.max_concurrent_logins));
    reveal_strlit("max_concurrent_logins");
    assert("record_calls"@ != "max_concurrent_logins"@);
    lemma_other_column_unchanged(a10, "max_concurrent_logins"@, int_value(p.max_concurrent_logins), "record_calls"@, flag_value(p.record_calls));
    let a12 = a11 + item_for("allowed_transport"@, text_value(p.allowed_transport));
    reveal_strlit("allowed_transport");
    assert("record_calls"@ != "allowed_transport"@);
    lemma_other_column_unchanged(a11, "allowed_transport"@, text_value(p.allowed_transport), "record_calls"@, flag_value(p.record_calls));
}

proof fn lemma_binds_is_active(p: UpdateExtensionRequest)
    ensures
        binds_column(update_parts(p), "is_active"@, flag_value(p.is_active)),
{
    reveal_strlit("is_active");
    let a0 = Seq::<UpdateItem>::empty();
    assert(binds_column(a0, "is_active"@, None));
    let a1 = a0 + item_for("display_name"@, text_value(p.display_name));
    reveal_strlit("display_name");
    assert("is_active"@ != "display_name"@);
    lemma_other_column_unchanged(a0, "display_name"@, text_value(p.display_name), "is_active"@, None);
    let a2 = a1 + item_for("password"@, text_value(p.password));
    reveal_strlit("password");
    assert("is_active"@ != "password"@);
    lemma_other_column_unchanged(a1, "password"@, text_value(p.password), "is_active"@, None);
    let a3 = a2 + item_for("email"@, text_value(p.email));
    reveal_strlit("email");
    assert("is_active"@ != "email"@);
    lemma_other_column_unchanged(a2, "email"@, text_value(p.email), "is_active"@, None);
    let a4 = a3 + item_for("record_calls"@, flag_value(p.record_calls));
    reveal_strlit("record_calls");
    assert("is_active"@ != "record_calls"@);
    lemma_other_column_unchanged(a3, "record_calls"@, flag_value(p.record_calls), "is_active"@, None);
    let a5 = a4 + item_for("is_active"@, flag_value(p.is_active));
    lemma_push_own_column(a4, "is_active"@, flag_value(p.is_active));
    let a6 = a5 + item_for("qualify_frequency"@, int_value(p.qualify_frequency));
    reveal_strlit("qualify_frequency");
    assert("is_active"@ != "qualify_frequency"@);
    lemma_other_column_unchanged(a5, "qualify_frequency"@, int_value(p.qualify_frequency), "is_active"@, flag_value(p.is_active));
    let a7 = a6 + item_for("nat_mode"@, text_value(p.nat_mode));
    reveal_strlit("nat_mode");
    assert("is_active"@ != "nat_mode"@);
    lemma_other_column_unchanged(a6, "nat_mode"@, text_value(p.nat_mode), "is_active"@, flag_value(p.is_active));
    let a8 = a7 + item_for("min_expires"@, int_value(p.min_expires));
    reveal_strlit("min_expires");
    assert("is_active"@ != "min_expires"@);
    lemma_other_column_unchanged(a7, "min_expires"@, int_value(p.min_expires), "is_active"@, flag_value(p.is_active));
    let a9 = a8 + item_for("max_expires"@, int_value(p.max_expires));
    reveal_strlit("max_expires");
    assert("is_active"@ != "max_expires"@);
    lemma_other_column_unchanged(a8, "max_expires"@, int_value(p.max_expires), "is_active"@, flag_value(p.is_active));
    let a10 = a9 + item_for("auth_required"@, flag_value(p.auth_required));
    reveal_strlit("auth_required");
    assert("is_active"@ != "auth_required"@);
    lemma_other_column_unchanged(a9, "auth_required"@, flag_value(p.auth_required), "is_active"@, flag_value(p.is_active));
    let a11 = a10 + item_for("max_concurrent_logins"@, int_value(p.max_concurrent_logins));
    reveal_strlit("max_concurrent_logins");
    assert("is_active"@ != "max_concurrent_logins"@);
    lemma_other_column_unchanged(a10, "max_concurrent_logins"@, int_value(p.max_concurrent_logins), "is_active"@, flag_value(p.is_active));
    let a12 = a11 + item_for("allowed_transport"@, text_value(p.allowed_transport));
    reveal_strlit("allowed_transport");
    assert("is_active"@ != "allowed_transport"@);
    lemma_other_column_unchanged(a11, "allowed_transport"@, text_value(p.allowed_transport), "is_active"@, flag_value(p.is_active));
}

proof fn lemma_binds_qualify_frequency(p: UpdateExtensionRequest)
    ensures
        binds_column(update_parts(p), "qualify_frequency"@, int_value(p.qualify_frequency)),
{
    reveal_strlit("qualify_frequency");
    let a0 = Seq::<UpdateItem>::empty();
    assert(binds_column(a0, "qualify_frequency"@, None));
    let a1 = a0 + item_for("display_name"@, text_value(p.display_name));
    reveal_strlit("display_name");
    assert("qualify_frequency"@ != "display_name"@);
    lemma_other_column_unchanged(a0, "display_name"@, text_value(p.display_name), "qualify_frequency"@, None);
    let a2 = a1 + item_for("password"@, text_value(p.password));
    reveal_strlit("password");
    assert("qualify_frequency"@ != "password"@);
    lemma_other_column_unchanged(a1, "password"@, text_value(p.password), "qualify_frequency"@, None);
    let a3 = a2 + item_for("email"@, text_value(p.email));
    reveal_strlit("email");
    assert("qualify_frequency"@ != "email"@);
    lemma_other_column_unchanged(a2, "email"@, text_value(p.email), "qualify_frequency"@, None);
    let a4 = a3 + item_for("record_calls"@, flag_value(p.record_calls));
    reveal_strlit("record_calls");
    assert("qualify_frequency"@ != "record_calls"@);
    lemma_other_column_unchanged(a3, "record_calls"@, flag_value(p.record_calls), "qualify_frequency"@, None);
    let a5 = a4 + item_for("is_active"@, flag_value(p.is_active));
    reveal_strlit("is_active");
    assert("qualify_frequency"@ != "is_active"@);
    lemma_other_column_unchanged(a4, "is_active"@, flag_value(p.is_active), "qualify_frequency"@, None);
    let a6 = a5 + item_for("qualify_frequency"@, int_value(p.qualify_frequency));
    lemma_push_own_column(a5, "qualify_frequency"@, int_value(p.qualify_frequency));
    let a7 = a6 + item_for("nat_mode"@, text_value(p.nat_mode));
    reveal_strlit("nat_mode");
    assert("qualify_frequency"@ != "nat_mode"@);
    lemma_other_column_unchanged(a6, "nat_mode"@, text_value(p.nat_mode), "qualify_frequency"@, int_value(p.qualify_frequency));
    let a8 = a7 + item_for("min_expires"@, int_value(p.min_expires));
    reveal_strlit("min_expires");
    assert("qualify_frequency"@ != "min_expires"@);
    lemma_other_column_unchanged(a7, "min_expires"@, int_value(p.min_expires), "qualify_frequency"@, int_value(p.qualify_frequency));
    let a9 = a8 + item_for("max_expires"@, int_value(p.max_expires));
    reveal_strlit("max_expires");
    assert("qualify_frequency"@ != "max_expires"@);
    lemma_other_column_unchanged(a8, "max_expires"@, int_value(p.max_expires), "qualify_frequency"@, int_value(p.qualify_frequency));
    let a10 = a9 + item_for("auth_required"@, flag_value(p.auth_required));
    reveal_strlit("auth_required");
    assert("qualify_frequency"@ != "auth_required"@);
    lemma_other_column_unchanged(a9, "auth_required"@, flag_value(p.auth_required), "qualify_frequency"@, int_value(p.qualify_frequency));
    let a11 = a10 + item_for("max_concurrent_logins"@, int_value(p.max_concurrent_logins));
    reveal_strlit("max_concurrent_logins");
    assert("qualify_frequency"@ != "max_concurrent_logins"@);
    lemma_other_column_unchanged(a10, "max_concurrent_logins"@, int_value(p.max_concurrent_logins), "qualify_frequency"@, int_value(p.qualify_frequency));
    let a12 = a11 + item_for("allowed_transport"@, text_value(p.allowed_transport));
    reveal_strlit("allowed_transport");
    assert("qualify_frequency"@ != "allowed_transport"@) by {
        assert("qualify_frequency"@[0] != "allowed_transport"@[0]);
    }
    lemma_other_column_unchanged(a11, "allowed_transport"@, text_value(p.allowed_transport), "qualify_frequency"@, int_value(p.qualify_frequency));
}

proof fn lemma_binds_nat_mode(p: UpdateExtensionRequest)
    ensures
        binds_column(update_parts(p), "nat_mode"@, text_value(p.nat_mode)),
{
    reveal_strlit("nat_mode");
    let a0 = Seq::<UpdateItem>::empty();
    assert(binds_column(a0, "nat_mode"@, None));
    let a1 = a0 + item_for("display_name"@, text_value(p.display_name));
    reveal_strlit("display_name");
    assert("nat_mode"@ != "display_name"@);
    lemma_other_column_unchanged(a0, "display_name"@, text_value(p.display_name), "nat_mode"@, None);
    let a2 = a1 + item_for("password"@, text_value(p.password));
    reveal_strlit("password");
    assert("nat_mode"@ != "password"@) by {
        assert("nat_mode"@[0] != "password"@[0]);
    }
    lemma_other_column_unchanged(a1, "password"@, text_value(p.password), "nat_mode"@, None);
    let a3 = a2 + item_for("email"@, text_value(p.email));
    reveal_strlit("email");
    assert("nat_mode"@ != "email"@);
    lemma_other_column_unchanged(a2, "email"@, text_value(p.email), "nat_mode"@, None);
    let a4 = a3 + item_for("record_calls"@, flag_value(p.record_calls));
    reveal_strlit("record_calls");
    assert("nat_mode"@ != "record_calls"@);
    lemma_other_column_unchanged(a3, "record_calls"@, flag_value(p.record_calls), "nat_mode"@, None);
    let a5 = a4 + item_for("is_active"@, flag_value(p.is_active));
    reveal_strlit("is_active");
    assert("nat_mode"@ != "is_active"@);
    lemma_other_column_unchanged(a4, "is_active"@, flag_value(p.is_active), "nat_mode"@, None);
    let a6 = a5 + item_for("qualify_frequency"@, int_value(p.qualify_frequency));
    reveal_strlit("qualify_frequency");
    assert("nat_mode"@ != "qualify_frequency"@);
    lemma_other_column_unchanged(a5, "qualify_frequency"@, int_value(p.qualify_frequency), "nat_mode"@, None);
    let a7 = a6 + item_for("nat_mode"@, text_value(p.nat_mode));
    lemma_push_own_column(a6, "nat_mode"@, text_value(p.nat_mode));
    let a8 = a7 + item_for("min_expires"@, int_value(p.min_expires));
    reveal_strlit("min_expires");
    assert("nat_mode"@ != "min_expires"@);
    lemma_other_column_unchanged(a7, "min_expires"@, int_value(p.min_expires), "nat_mode"@, text_value(p.nat_mode));
    let a9 = a8 + item_for("max_expires"@, int_value(p.max_expires));
    reveal_strlit("max_expires");
    assert("nat_mode"@ != "max_expires"@);
    lemma_other_column_unchanged(a8, "max_expires"@, int_value(p.max_expires), "nat_mode"@, text_value(p.nat_mode));
    let a10 = a9 + item_for("auth_required"@, flag_value(p.auth_required));
    reveal_strlit("auth_required");
    assert("nat_mode"@ != "auth_required"@);
    lemma_other_column_unchanged(a9, "auth_required"@, flag_value(p.auth_required), "nat_mode"@, text_value(p.nat_mode));
    let a11 = a10 + item_for("max_concurrent_logins"@, int_value(p.max_concurrent_logins));
    reveal_strlit("max_concurrent_logins");
    assert("nat_mode"@ != "max_concurrent_logins"@);
    lemma_other_column_unchanged(a10, "max_concurrent_logins"@, int_value(p.max_concurrent_logins), "nat_mode"@, text_value(p.nat_mode));
    let a12 = a11 + item_for("allowed_transport"@, text_value(p.allowed_transport));
    reveal_strlit("allowed_transport");
    assert("nat_mode"@ != "allowed_transport"@);
    lemma_other_column_unchanged(a11, "allowed_transport"@, text_value(p.allowed_transport), "nat_mode"@, text_value(p.nat_mode));
}

proof fn lemma_binds_min_expires(p: UpdateExtensionRequest)
    ensures
        binds_column(update_parts(p), "min_expires"@, int_value(p.min_expires)),
{
    reveal_strlit("min_expires");
    let a0 = Seq::<UpdateItem>::empty();
    assert(binds_column(a0, "min_expires"@, None));
    let a1 = a0 + item_for("display_name"@, text_value(p.display_name));
    reveal_strlit("display_name");
    assert("min_expires"@ != "display_name"@);
    lemma_other_column_unchanged(a0, "display_name"@, text_value(p.display_name), "min_expires"@, None);
    let a2 = a1 + item_for("password"@, text_value(p.password));
    reveal_strlit("password");
    assert("min_expires"@ != "password"@);
    lemma_other_column_unchanged(a1, "password"@, text_value(p.password), "min_expires"@, None);
    let a3 = a2 + item_for("email"@, text_value(p.email));
    reveal_strlit("email");
    assert("min_expires"@ != "email"@);
    lemma_other_column_unchanged(a2, "email"@, text_value(p.email), "min_expires"@, None);
    let a4 = a3 + item_for("record_calls"@, flag_value(p.record_calls));
    reveal_strlit("record_calls");
    assert("min_expires"@ != "record_calls"@);
    lemma_other_column_unchanged(a3, "record_calls"@, flag_value(p.record_calls), "min_expires"@, None);
    let a5 = a4 + item_for("is_active"@, flag_value(p.is_active));
    reveal_strlit("is_active");
    assert("min_expires"@ != "is_active"@);
    lemma_other_column_unchanged(a4, "is_active"@, flag_value(p.is_active), "min_expires"@, None);
    let a6 = a5 + item_for("qualify_frequency"@, int_value(p.qualify_frequency));
    reveal_strlit("qualify_frequency");
    assert("min_expires"@ != "qualify_frequency"@);
    lemma_other_column_unchanged(a5, "qualify_frequency"@, int_value(p.qualify_frequency), "min_expires"@, None);
    let a7 = a6 + item_for("nat_mode"@, text_value(p.nat_mode));
    reveal_strlit("nat_mode");
    assert("min_expires"@ != "nat_mode"@);
    lemma_other_column_unchanged(a6, "nat_mode"@, text_value(p.nat_mode), "min_expires"@, None);
    let a8 = a7 + item_for("min_expires"@, int_value(p.min_expires));
    lemma_push_own_column(a7, "min_expires"@, int_value(p.min_expires));
    let a9 = a8 + item_for("max_expires"@, int_value(p.max_expires));
    reveal_strlit("max_expires");
    assert("min_expires"@ != "max_expires"@) by {
        assert("min_expires"@[1] != "max_expires"@[1]);
    }
    lemma_other_column_unchanged(a8, "max_expires"@, int_value(p.max_expires), "min_expires"@, int_value(p.min_expires));
    let a10 = a9 + item_for("auth_required"@, flag_value(p.auth_required));
    reveal_strlit("auth_required");
    assert("min_expires"@ != "auth_required"@);
    lemma_other_column_unchanged(a9, "auth_required"@, flag_value(p.auth_required), "min_expires"@, int_value(p.min_expires));
    let a11 = a10 + item_for("max_concurrent_logins"@, int_value(p.max_concurrent_logins));
    reveal_strlit("max_concurrent_logins");
    assert("min_expires"@ != "max_concurrent_logins"@);
    lemma_other_column_unchanged(a10, "max_concurrent_logins"@, int_value(p.max_concurrent_logins), "min_expires"@, int_value(p.min_expires));
    let a12 = a11 + item_for("allowed_transport"@, text_value(p.allowed_transport));
    reveal_strlit("allowed_transport");
    assert("min_expires"@ != "allowed_transport"@);
    lemma_other_column_unchanged(a11, "allowed_transport"@, text_value(p.allowed_transport), "min_expires"@, int_value(p.min_expires));
}

proof fn lemma_binds_max_expires(p: UpdateExtensionRequest)
    ensures
        binds_column(update_parts(p), "max_expires"@, int_value(p.max_expires)),
{
    reveal_strlit("max_expires");
    let a0 = Seq::<UpdateItem>::empty();
    assert(binds_column(a0, "max_expires"@, None));
    let a1 = a0 + item_for("display_name"@, text_value(p.display_name));
    reveal_strlit("display_name");
    assert("max_expires"@ != "display_name"@);
    lemma_other_column_unchanged(a0, "display_name"@, text_value(p.display_name), "max_expires"@, None);
    let a2 = a1 + item_for("password"@, text_value(p.password));
    reveal_strlit("password");
    assert("max_expires"@ != "password"@);
    lemma_other_column_unchanged(a1, "password"@, text_value(p.password), "max_expires"@, None);
    let a3 = a2 + item_for("email"@, text_value(p.email));
    reveal_strlit("email");
    assert("max_expires"@ != "email"@);
    lemma_other_column_unchanged(a2, "email"@, text_value(p.email), "max_expires"@, None);
    let a4 = a3 + item_for("record_calls"@, flag_value(p.record_calls));
    reveal_strlit("record_calls");
    assert("max_expires"@ != "record_calls"@);
    lemma_other_column_unchanged(a3, "record_calls"@, flag_value(p.record_calls), "max_expires"@, None);
    let a5 = a4 + item_for("is_active"@, flag_value(p.is_active));
    reveal_strlit("is_active");
    assert("max_expires"@ != "is_active"@);
    lemma_other_column_unchanged(a4, "is_active"@, flag_value(p.is_active), "max_expires"@, None);
    let a6 = a5 + item_for("qualify_frequency"@, int_value(p.qualify_frequency));
    reveal_strlit("qualify_frequency");
    assert("max_expires"@ != "qualify_frequency"@);
    lemma_other_column_unchanged(a5, "qualify_frequency"@, int_value(p.qualify_frequency), "max_expires"@, None);
    let a7 = a6 + item_for("nat_mode"@, text_value(p.nat_mode));
    reveal_strlit("nat_mode");
    assert("max_expires"@ != "nat_mode"@);
    lemma_other_column_unchanged(a6, "nat_mode"@, text_value(p.nat_mode), "max_expires"@, None);
    let a8 = a7 + item_for("min_expires"@, int_value(p.min_expires));
    reveal_strlit("min_expires");
    assert("max_expires"@ != "min_expires"@) by {
        assert("max_expires"@[1] != "min_expires"@[1]);
    }
    lemma_other_column_unchanged(a7, "min_expires"@, int_value(p.min_expires), "max_expires"@, None);
    let a9 = a8 + item_for("max_expires"@, int_value(p.max_expires));
    lemma_push_own_column(a8, "max_expires"@, int_value(p.max_expires));
    let a10 = a9 + item_for("auth_required"@, flag_value(p.auth_required));
    reveal_strlit("auth_required");
    assert("max_expires"@ != "auth_required"@);
    lemma_other_column_unchanged(a9, "auth_required"@, flag_value(p.auth_required), "max_expires"@, int_value(p.max_expires));
    let a11 = a10 + item_for("max_concurrent_logins"@, int_value(p.max_concurrent_logins));
    reveal_strlit("max_concurrent_logins");
    assert("max_expires"@ != "max_concurrent_logins"@);
    lemma_other_column_unchanged(a10, "max_concurrent_logins"@, int_value(p.max_concurrent_logins), "max_expires"@, int_value(p.max_expires));
    let a12 = a11 + item_for("allowed_transport"@, text_value(p.allowed_transport));
    reveal_strlit("allowed_transport");
    assert("max_expires"@ != "allowed_transport"@);
    lemma_other_column_unchanged(a11, "allowed_transport"@, text_value(p.allowed_transport), "max_expires"@, int_value(p.max_expires));
}

proof fn lemma_binds_auth_required(p: UpdateExtensionRequest)
    ensures
        binds_column(update_parts(p), "auth_required"@, flag_value(p.auth_required)),
{
    reveal_strlit("auth_required");
    let a0 = Seq::<UpdateItem>::empty();
    assert(binds_column(a0, "auth_required"@, None));
    let a1 = a0 + item_for("display_name"@, text_value(p.display_name));
    reveal_strlit("display_name");
    assert("auth_required"@ != "display_name"@);
    lemma_other_column_unchanged(a0, "display_name"@, text_value(p.display_name), "auth_required"@, None);
    let a2 = a1 + item_for("password"@, text_value(p.password));
    reveal_strlit("password");
    assert("auth_required"@ != "password"@);
    lemma_other_column_unchanged(a1, "password"@, text_value(p.password), "auth_required"@, None);
    let a3 = a2 + item_for("email"@, text_value(p.email));
    reveal_strlit("email");
    assert("auth_required"@ != "email"@);
    lemma_other_column_unchanged(a2, "email"@, text_value(p.email), "auth_required"@, None);
    let a4 = a3 + item_for("record_calls"@, flag_value(p.record_calls));
    reveal_strlit("record_calls");
    assert("auth_required"@ != "record_calls"@);
    lemma_other_column_unchanged(a3, "record_calls"@, flag_value(p.record_calls), "auth_required"@, None);
    let a5 = a4 + item_for("is_active"@, flag_value(p.is_active));
    reveal_strlit("is_active");
    assert("auth_required"@ != "is_active"@);
    lemma_other_column_unchanged(a4, "is_active"@, flag_value(p.is_active), "auth_required"@, None);
    let a6 = a5 + item_for("qualify_frequency"@, int_value(p.qualify_frequency));
    reveal_strlit("qualify_frequency");
    assert("auth_required"@ != "qualify_frequency"@);
    lemma_other_column_unchanged(a5, "qualify_frequency"@, int_value(p.qualify_frequency), "auth_required"@, None);
    let a7 = a6 + item_for("nat_mode"@, text_value(p.nat_mode));
    reveal_strlit("nat_mode");
    assert("auth_required"@ != "nat_mode"@);
    lemma_other_column_unchanged(a6, "nat_mode"@, text_value(p.nat_mode), "auth_required"@, None);
    let a8 = a7 + item_for("min_expires"@, int_value(p.min_expires));
    reveal_strlit("min_expires");
    assert("auth_required"@ != "min_expires"@);
    lemma_other_column_unchanged(a7, "min_expires"@, int_value(p.min_expires), "auth_required"@, None);
    let a9 = a8 + item_for("max_expires"@, int_value(p.max_expires));
    reveal_strlit("max_expires");
    assert("auth_required"@ != "max_expires"@);
    lemma_other_column_unchanged(a8, "max_expires"@, int_value(p.max_expires), "auth_required"@, None);
    let a10 = a9 + item_for("auth_required"@, flag_value(p.auth_required));
    lemma_push_own_column(a9, "auth_required"@, flag_value(p.auth_required));
    let a11 = a10 + item_for("max_concurrent_logins"@, int_value(p.max_concurrent_logins));
    reveal_strlit("max_concurrent_logins");
    assert("auth_required"@ != "max_concurrent_logins"@);
    lemma_other_column_unchanged(a10, "max_concurrent_logins"@, int_value(p.max_concurrent_logins), "auth_required"@, flag_value(p.auth_required));
    let a12 = a11 + item_for("allowed_transport"@, text_value(p.allowed_transport));
    reveal_strlit("allowed_transport");
    assert("auth_required"@ != "allowed_transport"@);
    lemma_other_column_unchanged(a11, "allowed_transport"@, text_value(p.allowed_transport), "auth_required"@, flag_value(p.auth_required));
}

proof fn lemma_binds_max_concurrent_logins(p: UpdateExtensionRequest)
    ensures
        binds_column(update_parts(p), "max_concurrent_logins"@, int_value(p.max_concurrent_logins)),
{
    reveal_strlit("max_concurrent_logins");
    let a0 = Seq::<UpdateItem>::empty();
    assert(binds_column(a0, "max_concurrent_logins"@, None));
    let a1 = a0 + item_for("display_name"@, text_value(p.display_name));
    reveal_strlit("display_name");
    assert("max_concurrent_logins"@ != "display_name"@);
    lemma_other_column_unchanged(a0, "display_name"@, text_value(p.display_name), "max_concurrent_logins"@, None);
    let a2 = a1 + item_for("password"@, text_value(p.password));
    reveal_strlit("password");
    assert("max_concurrent_logins"@ != "password"@);
    lemma_other_column_unchanged(a1, "password"@, text_value(p.password), "max_concurrent_logins"@, None);
    let a3 = a2 + item_for("email"@, text_value(p.email));
    reveal_strlit("email");
    assert("max_concurrent_logins"@ != "email"@);
    lemma_other_column_unchanged(a2, "email"@, text_value(p.email), "max_concurrent_logins"@, None);
    let a4 = a3 + item_for("record_calls"@, flag_value(p.record_calls));
    reveal_strlit("record_calls");
    assert("max_concurrent_logins"@ != "record_calls"@);
    lemma_other_column_unchanged(a3, "record_calls"@, flag_value(p.record_calls), "max_concurrent_logins"@, None);
    let a5 = a4 + item_for("is_active"@, flag_value(p.is_active));
    reveal_strlit("is_active");
    assert("max_concurrent_logins"@ != "is_active"@);
    lemma_other_column_unchanged(a4, "is_active"@, flag_value(p.is_active), "max_concurrent_logins"@, None);
    let a6 = a5 + item_for("qualify_frequency"@, int_value(p.qualify_frequency));
    reveal_strlit("qualify_frequency");
    assert("max_concurrent_logins"@ != "qualify_frequency"@);
    lemma_other_column_unchanged(a5, "qualify_frequency"@, int_value(p.qualify_frequency), "max_concurrent_logins"@, None);
    let a7 = a6 + item_for("nat_mode"@, text_value(p.nat_mode));
    reveal_strlit("nat_mode");
    assert("max_concurrent_logins"@ != "nat_mode"@);
    lemma_other_column_unchanged(a6, "nat_mode"@, text_value(p.nat_mode), "max_concurrent_logins"@, None);
    let a8 = a7 + item_for("min_expires"@, int_value(p.min_expires));
    reveal_strlit("min_expires");
    assert("max_concurrent_logins"@ != "min_expires"@);
    lemma_other_column_unchanged(a7, "min_expires"@, int_value(p.min_expires), "max_concurrent_logins"@, None);
    let a9 = a8 + item_for("max_expires"@, int_value(p.max_expires));
    reveal_strlit("max_expires");
    assert("max_concurrent_logins"@ != "max_expires"@);
    lemma_other_column_unchanged(a8, "max_expires"@, int_value(p.max_expires), "max_concurrent_logins"@, None);
    let a10 = a9 + item_for("auth_required"@, flag_value(p.auth_required));
    reveal_strlit("auth_required");
    assert("max_concurrent_logins"@ != "auth_required"@);
    lemma_other_column_unchanged(a9, "auth_required"@, flag_value(p.auth_required), "max_concurrent_logins"@, None);
    let a11 = a10 + item_for("max_concurrent_logins"@, int_value(p.max_concurrent_logins));
    lemma_push_own_column(a10, "max_concurrent_logins"@, int_value(p.max_concurrent_logins));
    let a12 = a11 + item_for("allowed_transport"@, text_value(p.allowed_transport));
    reveal_strlit("allowed_transport");
    assert("max_concurrent_logins"@ != "allowed_transport"@);
    lemma_other_column_unchanged(a11, "allowed_transport"@, text_value(p.allowed_transport), "max_concurrent_logins"@, int_value(p.max_concurrent_logins));
}

proof fn lemma_binds_allowed_transport(p: UpdateExtensionRequest)
    ensures
        binds_column(update_parts(p), "allowed_transport"@, text_value(p.allowed_transport)),
{
    reveal_strlit("allowed_transport");
    let a0 = Seq::<UpdateItem>::empty();
    assert(binds_column(a0, "allowed_transport"@, None));
    let a1 = a0 + item_for("display_name"@, text_value(p.display_name));
    reveal_strlit("display_name");
    assert("allowed_transport"@ != "display_name"@);
    lemma_other_column_unchanged(a0, "display_name"@, text_value(p.display_name), "allowed_transport"@, None);
    let a2 = a1 + item_for("password"@, text_value(p.password));
    reveal_strlit("password");
    assert("allowed_transport"@ != "password"@);
    lemma_other_column_unchanged(a1, "password"@, text_value(p.password), "allowed_transport"@, None);
    let a3 = a2 + item_for("email"@, text_value(p.email));
    reveal_strlit("email");
    assert("allowed_transport"@ != "email"@);
    lemma_other_column_unchanged(a2, "email"@, text_value(p.email), "allowed_transport"@, None);
    let a4 = a3 + item_for("record_calls"@, flag_value(p.record_calls));
    reveal_strlit("record_calls");
    assert("allowed_transport"@ != "record_calls"@);
    lemma_other_column_unchanged(a3, "record_calls"@, flag_value(p.record_calls), "allowed_transport"@, None);
    let a5 = a4 + item_for("is_active"@, flag_value(p.is_active));
    reveal_strlit("is_active");
    assert("allowed_transport"@ != "is_active"@);
    lemma_other_column_unchanged(a4, "is_active"@, flag_value(p.is_active), "allowed_transport"@, None);
    let a6 = a5 + item_for("qualify_frequency"@, int_value(p.qualify_frequency));
    reveal_strlit("qualify_frequency");
    assert("allowed_transport"@ != "qualify_frequency"@) by {
        assert("allowed_transport"@[0] != "qualify_frequency"@[0]);
    }
    lemma_other_column_unchanged(a5, "qualify_frequency"@, int_value(p.qualify_frequency), "allowed_transport"@, None);
    let a7 = a6 + item_for("nat_mode"@, text_value(p.nat_mode));
    reveal_strlit("nat_mode");
    assert("allowed_transport"@ != "nat_mode"@);
    lemma_other_column_unchanged(a6, "nat_mode"@, text_value(p.nat_mode), "allowed_transport"@, None);
    let a8 = a7 + item_for("min_expires"@, int_value(p.min_expires));
    reveal_strlit("min_expires");
    assert("allowed_transport"@ != "min_expires"@);
    lemma_other_column_unchanged(a7, "min_expires"@, int_value(p.min_expires), "allowed_transport"@, None);
    let a9 = a8 + item_for("max_expires"@, int_value(p.max_expires));
    reveal_strlit("max_expires");
    assert("allowed_transport"@ != "max_expires"@);
    lemma_other_column_unchanged(a8, "max_expires"@, int_value(p.max_expires), "allowed_transport"@, None);
    let a10 = a9 + item_for("auth_required"@, flag_value(p.auth_required));
    reveal_strlit("auth_required");
    assert("allowed_transport"@ != "auth_required"@);
    lemma_other_column_unchanged(a9, "auth_required"@, flag_value(p.auth_required), "allowed_transport"@, None);
    let a11 = a10 + item_for("max_concurrent_logins"@, int_value(p.max_concurrent_logins));
    reveal_strlit("max_concurrent_logins");
    assert("allowed_transport"@ != "max_concurrent_logins"@);
    lemma_other_column_unchanged(a10, "max_concurrent_logins"@, int_value(p.max_concurrent_logins), "allowed_transport"@, None);
    let a12 = a11 + item_for("allowed_transport"@, text_value(p.allowed_transport));
    lemma_push_own_column(a11, "allowed_transport"@, text_value(p.allowed_transport));
}

/// Every column an extension update can set binds, in the update, exactly the value
/// the request gives for that very column: it is set when, and only when, the
/// request gives a value for it, and then with that value (flags as 1 or 0).
pub proof fn law_update_binds_each_column_its_own_value(p: UpdateExtensionRequest)
    ensures
        binds_column(update_items(p), "display_name"@, text_value(p.display_name)),
        binds_column(update_items(p), "password"@, text_value(p.password)),
        binds_column(update_items(p), "email"@, text_value(p.email)),
        binds_column(update_items(p), "record_calls"@, flag_value(p.record_calls)),
        binds_column(update_items(p), "is_active"@, flag_value(p.is_active)),
        binds_column(update_items(p), "qualify_frequency"@, int_value(p.qualify_frequency)),
        binds_column(update_items(p), "nat_mode"@, text_value(p.nat_mode)),
        binds_column(update_items(p), "min_expires"@, int_value(p.min_expires)),
        binds_column(update_items(p), "max_expires"@, int_value(p.max_expires)),
        binds_column(update_items(p), "auth_required"@, flag_value(p.auth_required)),
        binds_column(update_items(p), "max_concurrent_logins"@, int_value(p.max_concurrent_logins)),
        binds_column(update_items(p), "allowed_transport"@, text_value(p.allowed_transport)),
{
    lemma_update_parts(p);
    lemma_binds_display_name(p);
    lemma_binds_password(p);
    lemma_binds_email(p);
    lemma_binds_record_calls(p);
    lemma_binds_is_active(p);
    lemma_binds_qualify_frequency(p);
    lemma_binds_nat_mode(p);
    lemma_binds_min_expires(p);
    lemma_binds_max_expires(p);
    lemma_binds_auth_required(p);
    lemma_binds_max_concurrent_logins(p);
    lemma_binds_allowed_transport(p);
}

} // verus!
