//! What the statements mean: a small model of the SQL they are written in.
//!
//! A statement is described by its parts (table, conditions, order, limit, assignment);
//! `render_select` and `render_update` give the SQL text of such a description, and
//! `select_result` and `update_result` say what running it does to a table, modelled as a
//! sequence of rows that map column names to values. The laws at the end prove, for the
//! statements the bot runs, that their text is the rendering of a description, and what
//! that description does to any table.

use vstd::prelude::*;
use crate::db::row::SqlView;
use crate::order::lex_lt;
use crate::text::{dec_int, join_with_spec};

verus! {

broadcast use vstd::seq_lib::group_seq_properties;

// ── Statements ───────────────────────────────────────────────────────────────

/// A value in a statement: the placeholder bound to parameter `k`, or a literal.
pub enum SqlArg {
    Param(int),
    Int(int),
    Text(Seq<char>),
}

/// A condition `col = value`.
pub struct Atom {
    pub col: Seq<char>,
    pub arg: SqlArg,
}

/// A `WHERE` clause: every atom of `all` holds, and, where `any` has groups, every atom
/// of at least one group holds.
pub struct Where {
    pub all: Seq<Atom>,
    pub any: Seq<Seq<Atom>>,
}

/// `SELECT * FROM table [WHERE ..] [ORDER BY col ASC|DESC] [LIMIT n]`.
pub struct Select {
    pub table: Seq<char>,
    pub filter: Option<Where>,
    /// The column, and whether the order is descending.
    pub order: Option<(Seq<char>, bool)>,
    pub limit: Option<SqlArg>,
}

/// `UPDATE table SET col = value WHERE ..`.
pub struct Update {
    pub table: Seq<char>,
    pub col: Seq<char>,
    pub arg: SqlArg,
    pub filter: Where,
}

// ── Text ─────────────────────────────────────────────────────────────────────

/// The text of a value: `?` for a placeholder, the decimal number, or the quoted text.
pub open spec fn render_arg(a: SqlArg) -> Seq<char> {
    match a {
        SqlArg::Param(_) => "?"@,
        SqlArg::Int(n) => dec_int(n),
        SqlArg::Text(s) => "'"@ + s + "'"@,
    }
}

/// The text of an atom: `col = value`.
pub open spec fn render_atom(a: Atom) -> Seq<char> {
    a.col + " = "@ + render_arg(a.arg)
}

/// The atoms joined by `AND`.
pub open spec fn render_conj(atoms: Seq<Atom>) -> Seq<char> {
    join_with_spec(atoms.map_values(|a: Atom| render_atom(a)), " AND "@)
}

/// The text of a `WHERE` clause (without the keyword).
pub open spec fn render_where(w: Where) -> Seq<char> {
    render_conj(w.all) + if w.any.len() == 0 {
        Seq::empty()
    } else {
        " AND ( "@ + join_with_spec(w.any.map_values(|g: Seq<Atom>| "("@ + render_conj(g) + ")"@), " OR "@) + " )"@
    }
}

/// The text of a `SELECT`.
pub open spec fn render_select(s: Select) -> Seq<char> {
    "SELECT * FROM "@ + s.table + (match s.filter {
        Some(w) => " WHERE "@ + render_where(w),
        None => Seq::empty(),
    }) + (match s.order {
        Some((c, desc)) => " ORDER BY "@ + c + if desc { " DESC"@ } else { " ASC"@ },
        None => Seq::empty(),
    }) + (match s.limit {
        Some(a) => " LIMIT "@ + render_arg(a),
        None => Seq::empty(),
    })
}

/// The text of an `UPDATE`.
pub open spec fn render_update(u: Update) -> Seq<char> {
    "UPDATE "@ + u.table + " SET "@ + u.col + " = "@ + render_arg(u.arg) + " WHERE "@ + render_where(u.filter)
}

// ── Parameters ───────────────────────────────────────────────────────────────

/// The parameter indices of a value, in textual order.
pub open spec fn arg_params(a: SqlArg) -> Seq<int> {
    match a {
        SqlArg::Param(k) => seq![k],
        _ => Seq::empty(),
    }
}

/// The parameter indices of a conjunction, in textual order.
pub open spec fn conj_params(atoms: Seq<Atom>) -> Seq<int>
    decreases atoms.len(),
{
    if atoms.len() == 0 {
        Seq::empty()
    } else {
        conj_params(atoms.drop_last()) + arg_params(atoms.last().arg)
    }
}

/// The parameter indices of groups of conjunctions, in textual order.
pub open spec fn groups_params(gs: Seq<Seq<Atom>>) -> Seq<int>
    decreases gs.len(),
{
    if gs.len() == 0 {
        Seq::empty()
    } else {
        groups_params(gs.drop_last()) + conj_params(gs.last())
    }
}

/// The parameter indices of a `WHERE` clause, in textual order.
pub open spec fn where_params(w: Where) -> Seq<int> {
    conj_params(w.all) + groups_params(w.any)
}

/// The parameter indices of a `SELECT`, in textual order.
pub open spec fn select_params(s: Select) -> Seq<int> {
    (match s.filter {
        Some(w) => where_params(w),
        None => Seq::empty(),
    }) + (match s.limit {
        Some(a) => arg_params(a),
        None => Seq::empty(),
    })
}

/// The parameter indices of an `UPDATE`, in textual order.
pub open spec fn update_params(u: Update) -> Seq<int> {
    arg_params(u.arg) + where_params(u.filter)
}

/// Whether the placeholders are numbered as SQL binds them: the `k`-th `?` of the text
/// takes parameter `k`, and there are `n` of them.
pub open spec fn binds(ps: Seq<int>, n: nat) -> bool {
    ps.len() == n && forall|i: int| 0 <= i < ps.len() ==> ps[i] == i
}

// ── Meaning ──────────────────────────────────────────────────────────────────

/// A row of a table: its columns and their values.
pub type SqlRow = Map<Seq<char>, SqlView>;

/// The value of column `c` in a row; `NULL` where the row has no such column.
pub open spec fn col_value(row: SqlRow, c: Seq<char>) -> SqlView {
    if row.dom().contains(c) {
        row[c]
    } else {
        SqlView::Null
    }
}

/// The value a statement value stands for, given the bound parameters.
pub open spec fn arg_value(a: SqlArg, params: Seq<SqlView>) -> SqlView {
    match a {
        SqlArg::Param(k) => params[k],
        SqlArg::Int(n) => SqlView::Int(n as i64),
        SqlArg::Text(s) => SqlView::Text(s),
    }
}

/// Whether `col = value` holds of a row: the column is not `NULL` and equals the value.
pub open spec fn atom_holds(a: Atom, params: Seq<SqlView>, row: SqlRow) -> bool {
    !(col_value(row, a.col) is Null) && col_value(row, a.col) == arg_value(a.arg, params)
}

/// Whether every atom holds of a row.
pub open spec fn conj_holds(atoms: Seq<Atom>, params: Seq<SqlView>, row: SqlRow) -> bool {
    forall|i: int| 0 <= i < atoms.len() ==> atom_holds(#[trigger] atoms[i], params, row)
}

/// Whether a `WHERE` clause holds of a row.
pub open spec fn where_holds(w: Where, params: Seq<SqlView>, row: SqlRow) -> bool {
    conj_holds(w.all, params, row) && (w.any.len() == 0 || exists|g: int|
        0 <= g < w.any.len() && conj_holds(#[trigger] w.any[g], params, row))
}

/// The rows of a table that a `SELECT`'s condition keeps, in table order.
pub open spec fn matching(s: Select, params: Seq<SqlView>, table: Seq<SqlRow>) -> Seq<SqlRow> {
    match s.filter {
        Some(w) => table.filter(|r: SqlRow| where_holds(w, params, r)),
        None => table,
    }
}

/// How SQLite orders values of different kinds: `NULL`, then numbers, then text.
pub open spec fn kind_rank(v: SqlView) -> int {
    match v {
        SqlView::Null => 0,
        SqlView::Int(_) => 1,
        SqlView::UInt(_) => 1,
        SqlView::Text(_) => 2,
    }
}

/// The number a numeric value holds.
pub open spec fn num(v: SqlView) -> int {
    match v {
        SqlView::Int(n) => n as int,
        SqlView::UInt(n) => n as int,
        _ => 0,
    }
}

/// The text a text value holds.
pub open spec fn txt(v: SqlView) -> Seq<char> {
    match v {
        SqlView::Text(s) => s,
        _ => Seq::empty(),
    }
}

/// Whether `a` sorts no later than `b`.
pub open spec fn key_le(a: SqlView, b: SqlView) -> bool {
    kind_rank(a) < kind_rank(b) || (kind_rank(a) == kind_rank(b) && (kind_rank(a) == 0 || (kind_rank(a) == 1
        && num(a) <= num(b)) || (kind_rank(a) == 2 && (txt(a) == txt(b) || lex_lt(txt(a), txt(b))))))
}

/// Whether the rows are in the order of column `c` (descending if `desc`).
pub open spec fn ordered_by(out: Seq<SqlRow>, c: Seq<char>, desc: bool) -> bool {
    forall|i: int, j: int| 0 <= i < j < out.len() ==> if desc {
        key_le(col_value(#[trigger] out[j], c), col_value(#[trigger] out[i], c))
    } else {
        key_le(col_value(out[i], c), col_value(out[j], c))
    }
}

/// The row count a `LIMIT` value stands for.
pub open spec fn limit_count(a: SqlArg, params: Seq<SqlView>) -> Option<nat> {
    match arg_value(a, params) {
        SqlView::Int(n) => if n >= 0 { Some(n as nat) } else { None },
        SqlView::UInt(n) => Some(n as nat),
        _ => None,
    }
}

/// Whether `out` is a result that running the `SELECT` on `table` can give: rows that
/// satisfy its condition, each at most as often as in the table; all of them where there
/// is no limit; in the stated order; and, with a limit, as many as the limit allows, with
/// every row left out sorting no earlier than the rows returned.
pub open spec fn select_result(s: Select, params: Seq<SqlView>, table: Seq<SqlRow>, out: Seq<SqlRow>) -> bool {
    let m = matching(s, params, table);
    &&& out.to_multiset().subset_of(m.to_multiset())
    &&& match s.order {
        Some((c, desc)) => ordered_by(out, c, desc),
        None => true,
    }
    &&& match s.limit {
        None => out.to_multiset() == m.to_multiset(),
        Some(a) => match limit_count(a, params) {
            Some(n) => {
                &&& out.len() == (if n < m.len() { n } else { m.len() })
                &&& match s.order {
                    Some((c, desc)) => forall|r: SqlRow, i: int|
                        #![trigger m.to_multiset().count(r), out[i]]
                        m.to_multiset().count(r) > out.to_multiset().count(r) && 0 <= i < out.len() ==> if desc {
                            key_le(col_value(r, c), col_value(out[i], c))
                        } else {
                            key_le(col_value(out[i], c), col_value(r, c))
                        },
                    None => true,
                }
            },
            None => false,
        },
    }
}

/// The table after running the `UPDATE`: every row that satisfies its condition has the
/// column set to the value; every other row is unchanged.
pub open spec fn update_result(u: Update, params: Seq<SqlView>, table: Seq<SqlRow>) -> Seq<SqlRow> {
    table.map_values(|r: SqlRow| if where_holds(u.filter, params, r) {
        r.insert(u.col, arg_value(u.arg, params))
    } else {
        r
    })
}

// ── Results of a SELECT ──────────────────────────────────────────────────────

/// Every row a `SELECT` returns is a row of the table that satisfies its condition.
pub proof fn lemma_selected_row(s: Select, params: Seq<SqlView>, table: Seq<SqlRow>, out: Seq<SqlRow>, i: int)
    requires
        select_result(s, params, table, out),
        0 <= i < out.len(),
    ensures
        table.contains(out[i]),
        s.filter matches Some(w) ==> where_holds(w, params, out[i]),
{
    let m = matching(s, params, table);
    out.to_multiset_ensures();
    m.to_multiset_ensures();
    assert(out.contains(out[i]));
    assert(out.to_multiset().count(out[i]) > 0);
    assert(m.to_multiset().count(out[i]) > 0);
    assert(m.contains(out[i]));
    match s.filter {
        Some(w) => {
            let pred = |r: SqlRow| where_holds(w, params, r);
            table.lemma_filter_contains_rev(pred, out[i]);
            let k = choose|k: int| 0 <= k < m.len() && m[k] == out[i];
            assert(pred(m[k]));
        },
        None => {},
    }
}

/// Without a limit, a `SELECT` returns every row of the table that satisfies its
/// condition.
pub proof fn lemma_selected_all(s: Select, params: Seq<SqlView>, table: Seq<SqlRow>, out: Seq<SqlRow>, k: int)
    requires
        select_result(s, params, table, out),
        s.limit is None,
        0 <= k < table.len(),
        s.filter matches Some(w) ==> where_holds(w, params, table[k]),
    ensures
        out.contains(table[k]),
{
    let m = matching(s, params, table);
    out.to_multiset_ensures();
    m.to_multiset_ensures();
    match s.filter {
        Some(w) => {
            table.lemma_filter_contains(|r: SqlRow| where_holds(w, params, r), k);
        },
        None => {
            assert(m[k] == table[k]);
        },
    }
    assert(m.to_multiset().count(table[k]) > 0);
}

// ── The statements the bot runs ─────────────────────────────────────────────

/// `col = ?k`.
pub open spec fn eq_param(col: Seq<char>, k: int) -> Atom {
    Atom { col, arg: SqlArg::Param(k) }
}

/// Reads a room's subscriptions.
pub open spec fn room_subscriptions_select() -> Select {
    Select {
        table: "subscriptions"@,
        filter: Some(Where { all: seq![eq_param("platform"@, 0), eq_param("room_id"@, 1)], any: seq![] }),
        order: None,
        limit: None,
    }
}

/// Reads a room's pending join requests, oldest first.
pub open spec fn pending_requests_select() -> Select {
    Select {
        table: "join_requests"@,
        filter: Some(Where {
            all: seq![
                eq_param("platform"@, 0),
                eq_param("room_id"@, 1),
                Atom { col: "status"@, arg: SqlArg::Text("pending"@) },
            ],
            any: seq![],
        }),
        order: Some(("created_at"@, false)),
        limit: None,
    }
}

/// Whether a row belongs to the room `platform`/`room` (its `platform` and `room_id`
/// columns hold those texts).
pub open spec fn in_room(row: SqlRow, platform: Seq<char>, room: Seq<char>) -> bool {
    col_value(row, "platform"@) == SqlView::Text(platform) && col_value(row, "room_id"@) == SqlView::Text(room)
}

/// The statement that lists a room's subscriptions returns exactly that room's
/// subscriptions: every row it returns has the room's platform and room id, and every
/// subscription of the room is returned.
pub proof fn law_room_subscriptions_are_the_rooms(platform: Seq<char>, room: Seq<char>, table: Seq<SqlRow>, out: Seq<SqlRow>)
    ensures
        crate::db::subscription::subscriptions_for_room_spec(platform, room).sql == render_select(room_subscriptions_select()),
        binds(select_params(room_subscriptions_select()), crate::db::subscription::subscriptions_for_room_spec(platform, room).params.len()),
        select_result(room_subscriptions_select(), crate::db::subscription::subscriptions_for_room_spec(platform, room).params, table, out) ==> {
            &&& forall|i: int| 0 <= i < out.len() ==> in_room(#[trigger] out[i], platform, room)
            &&& forall|k: int| 0 <= k < table.len() && in_room(#[trigger] table[k], platform, room) ==> out.contains(table[k])
        },
{
    let sel = room_subscriptions_select();
    let q = crate::db::subscription::subscriptions_for_room_spec(platform, room);
    let w = sel.filter->0;
    reveal_with_fuel(join_with_spec, 3);
    reveal_with_fuel(conj_params, 3);
    reveal_strlit("SELECT * FROM subscriptions WHERE platform = ? AND room_id = ?");
    reveal_strlit("SELECT * FROM ");
    reveal_strlit("subscriptions");
    reveal_strlit(" WHERE ");
    reveal_strlit("platform");
    reveal_strlit("room_id");
    reveal_strlit(" = ");
    reveal_strlit("?");
    reveal_strlit(" AND ");
    let m = w.all.map_values(|a: Atom| render_atom(a));
    assert(m.drop_last().len() == 1);
    assert(render_conj(w.all) == m[0] + " AND "@ + m[1]);
    assert(q.sql =~= render_select(sel));
    assert(w.all.drop_last().drop_last() =~= Seq::<Atom>::empty());
    assert(select_params(sel) =~= seq![0int, 1int]);
    if select_result(sel, q.params, table, out) {
        assert forall|i: int| 0 <= i < out.len() implies in_room(#[trigger] out[i], platform, room) by {
            lemma_selected_row(sel, q.params, table, out, i);
            assert(atom_holds(w.all[0], q.params, out[i]));
            assert(atom_holds(w.all[1], q.params, out[i]));
        }
        assert forall|k: int| 0 <= k < table.len() && in_room(#[trigger] table[k], platform, room) implies out.contains(table[k]) by {
            assert forall|j: int| 0 <= j < w.all.len() implies atom_holds(#[trigger] w.all[j], q.params, table[k]) by {
                assert(j == 0 || j == 1);
            }
            lemma_selected_all(sel, q.params, table, out, k);
        }
    }
}

/// The statement behind `/verify`'s duplicate check returns exactly the room's pending
/// requests: every row it returns belongs to the room and has status `pending`, every
/// pending request of the room is returned, and they come oldest first.
pub proof fn law_pending_requests_are_pending(platform: Seq<char>, room: Seq<char>, table: Seq<SqlRow>, out: Seq<SqlRow>)
    ensures
        crate::db::join::list_pending_join_requests_spec(platform, room).sql == render_select(pending_requests_select()),
        binds(select_params(pending_requests_select()), crate::db::join::list_pending_join_requests_spec(platform, room).params.len()),
        select_result(pending_requests_select(), crate::db::join::list_pending_join_requests_spec(platform, room).params, table, out) ==> {
            &&& forall|i: int| 0 <= i < out.len() ==> in_room(#[trigger] out[i], platform, room)
                && col_value(out[i], "status"@) == SqlView::Text("pending"@)
            &&& forall|k: int| 0 <= k < table.len() && in_room(#[trigger] table[k], platform, room)
                && col_value(table[k], "status"@) == SqlView::Text("pending"@) ==> out.contains(table[k])
            &&& forall|i: int, j: int| 0 <= i < j < out.len() ==> key_le(
                col_value(#[trigger] out[i], "created_at"@),
                col_value(#[trigger] out[j], "created_at"@),
            )
        },
{
    let sel = pending_requests_select();
    let q = crate::db::join::list_pending_join_requests_spec(platform, room);
    let w = sel.filter->0;
    reveal_with_fuel(join_with_spec, 4);
    reveal_with_fuel(conj_params, 4);
    reveal_strlit("SELECT * FROM join_requests WHERE platform = ? AND room_id = ? AND status = 'pending' ORDER BY created_at ASC");
    reveal_strlit("SELECT * FROM ");
    reveal_strlit("join_requests");
    reveal_strlit(" WHERE ");
    reveal_strlit("platform");
    reveal_strlit("room_id");
    reveal_strlit("status");
    reveal_strlit("pending");
    reveal_strlit("'");
    reveal_strlit(" = ");
    reveal_strlit("?");
    reveal_strlit(" AND ");
    reveal_strlit(" ORDER BY ");
    reveal_strlit("created_at");
    reveal_strlit(" ASC");
    let m = w.all.map_values(|a: Atom| render_atom(a));
    assert(m.drop_last().drop_last().len() == 1);
    assert(m.drop_last().len() == 2);
    assert(render_conj(w.all) == m[0] + " AND "@ + m[1] + " AND "@ + m[2]);
    assert(q.sql =~= render_select(sel));
    assert(w.all.drop_last().drop_last().drop_last() =~= Seq::<Atom>::empty());
    assert(w.all.drop_last().drop_last() =~= seq![w.all[0]]);
    assert(select_params(sel) =~= seq![0int, 1int]);
    if select_result(sel, q.params, table, out) {
        assert forall|i: int| 0 <= i < out.len() implies in_room(#[trigger] out[i], platform, room)
            && col_value(out[i], "status"@) == SqlView::Text("pending"@) by {
            lemma_selected_row(sel, q.params, table, out, i);
            assert(atom_holds(w.all[0], q.params, out[i]));
            assert(atom_holds(w.all[1], q.params, out[i]));
            assert(atom_holds(w.all[2], q.params, out[i]));
        }
        assert forall|k: int| 0 <= k < table.len() && in_room(#[trigger] table[k], platform, room)
            && col_value(table[k], "status"@) == SqlView::Text("pending"@) implies out.contains(table[k]) by {
            assert forall|j: int| 0 <= j < w.all.len() implies atom_holds(#[trigger] w.all[j], q.params, table[k]) by {
                assert(j == 0 || j == 1 || j == 2);
            }
            lemma_selected_all(sel, q.params, table, out, k);
        }
    }
}

/// Reads the latest entries of the audit log, newest first.
pub open spec fn recent_audit_select() -> Select {
    Select { table: "audit_log"@, filter: None, order: Some(("id"@, true)), limit: Some(SqlArg::Param(0)) }
}

/// The statement behind `/bot-logs` returns the latest `limit` entries: as many as the
/// limit allows (or all there are), newest first, and no entry left out has a larger
/// id than an entry returned.
pub proof fn law_recent_audit_is_the_latest(limit: u64, table: Seq<SqlRow>, out: Seq<SqlRow>)
    ensures
        crate::db::audit::recent_audit_spec(limit).sql == render_select(recent_audit_select()),
        binds(select_params(recent_audit_select()), crate::db::audit::recent_audit_spec(limit).params.len()),
        select_result(recent_audit_select(), crate::db::audit::recent_audit_spec(limit).params, table, out) ==> {
            &&& out.len() == (if limit < table.len() { limit as int } else { table.len() as int })
            &&& forall|i: int| 0 <= i < out.len() ==> table.contains(#[trigger] out[i])
            &&& forall|i: int, j: int| 0 <= i < j < out.len() ==> key_le(
                col_value(#[trigger] out[j], "id"@),
                col_value(#[trigger] out[i], "id"@),
            )
            &&& forall|r: SqlRow, i: int|
                #![trigger table.to_multiset().count(r), out[i]]
                table.to_multiset().count(r) > out.to_multiset().count(r) && 0 <= i < out.len() ==> key_le(
                    col_value(r, "id"@),
                    col_value(out[i], "id"@),
                )
        },
{
    let sel = recent_audit_select();
    let q = crate::db::audit::recent_audit_spec(limit);
    reveal_strlit("SELECT * FROM audit_log ORDER BY id DESC LIMIT ?");
    reveal_strlit("SELECT * FROM ");
    reveal_strlit("audit_log");
    reveal_strlit(" ORDER BY ");
    reveal_strlit("id");
    reveal_strlit(" DESC");
    reveal_strlit(" LIMIT ");
    reveal_strlit("?");
    assert(q.sql =~= render_select(sel));
    assert(select_params(sel) =~= seq![0int]);
    if select_result(sel, q.params, table, out) {
        assert(limit_count(SqlArg::Param(0), q.params) == Some(limit as nat));
        assert forall|i: int| 0 <= i < out.len() implies table.contains(#[trigger] out[i]) by {
            lemma_selected_row(sel, q.params, table, out, i);
        }
    }
}

/// Reads the enabled rules that route messages from a room: those with the room as
/// source, and the bidirectional ones with the room as target.
pub open spec fn active_rules_select() -> Select {
    Select {
        table: "sync_rules"@,
        filter: Some(Where {
            all: seq![Atom { col: "enabled"@, arg: SqlArg::Int(1) }],
            any: seq![
                seq![eq_param("source_platform"@, 0), eq_param("source_room"@, 1)],
                seq![
                    eq_param("target_platform"@, 2),
                    eq_param("target_room"@, 3),
                    Atom { col: "direction"@, arg: SqlArg::Text("both"@) },
                ],
            ],
        }),
        order: None,
        limit: None,
    }
}

/// Disables the rules between two rooms.
pub open spec fn disable_rule_update() -> Update {
    Update {
        table: "sync_rules"@,
        col: "enabled"@,
        arg: SqlArg::Int(0),
        filter: Where {
            all: seq![
                eq_param("source_platform"@, 0),
                eq_param("source_room"@, 1),
                eq_param("target_platform"@, 2),
                eq_param("target_room"@, 3),
            ],
            any: seq![],
        },
    }
}

/// Whether a rule row links source `sp`/`sr` to target `tp`/`tr`.
pub open spec fn is_rule_between(row: SqlRow, sp: Seq<char>, sr: Seq<char>, tp: Seq<char>, tr: Seq<char>) -> bool {
    &&& col_value(row, "source_platform"@) == SqlView::Text(sp)
    &&& col_value(row, "source_room"@) == SqlView::Text(sr)
    &&& col_value(row, "target_platform"@) == SqlView::Text(tp)
    &&& col_value(row, "target_room"@) == SqlView::Text(tr)
}

/// Whether a rule row routes messages from `platform`/`room`: the room is its source, or
/// its target and the rule goes both ways.
pub open spec fn routes_from(row: SqlRow, platform: Seq<char>, room: Seq<char>) -> bool {
    ||| (col_value(row, "source_platform"@) == SqlView::Text(platform) && col_value(row, "source_room"@)
        == SqlView::Text(room))
    ||| (col_value(row, "target_platform"@) == SqlView::Text(platform) && col_value(row, "target_room"@)
        == SqlView::Text(room) && col_value(row, "direction"@) == SqlView::Text("both"@))
}

/// The text lemma and the parameter numbering of the active-rules statement.
proof fn lemma_active_rules_text(platform: Seq<char>, room: Seq<char>)
    ensures
        crate::db::sync::active_rules_for_spec(platform, room).sql == render_select(active_rules_select()),
        binds(select_params(active_rules_select()), crate::db::sync::active_rules_for_spec(platform, room).params.len()),
{
    let sel = active_rules_select();
    let q = crate::db::sync::active_rules_for_spec(platform, room);
    let w = sel.filter->0;
    reveal_with_fuel(join_with_spec, 4);
    reveal_with_fuel(conj_params, 4);
    reveal_with_fuel(groups_params, 3);
    reveal_strlit("SELECT * FROM sync_rules WHERE enabled = 1 AND ( (source_platform = ? AND source_room = ?) OR (target_platform = ? AND target_room = ? AND direction = 'both') )");
    reveal_strlit("SELECT * FROM ");
    reveal_strlit("sync_rules");
    reveal_strlit(" WHERE ");
    reveal_strlit("enabled");
    reveal_strlit("source_platform");
    reveal_strlit("source_room");
    reveal_strlit("target_platform");
    reveal_strlit("target_room");
    reveal_strlit("direction");
    reveal_strlit("both");
    reveal_strlit("'");
    reveal_strlit(" = ");
    reveal_strlit("?");
    reveal_strlit(" AND ");
    reveal_strlit(" AND ( ");
    reveal_strlit(" OR ");
    reveal_strlit(" )");
    reveal_strlit("(");
    reveal_strlit(")");
    let g0 = w.any[0];
    let g1 = w.any[1];
    let m0 = g0.map_values(|a: Atom| render_atom(a));
    let m1 = g1.map_values(|a: Atom| render_atom(a));
    assert(m0.drop_last().len() == 1);
    assert(m1.drop_last().drop_last().len() == 1);
    assert(m1.drop_last().len() == 2);
    assert(render_conj(g0) == m0[0] + " AND "@ + m0[1]);
    assert(render_conj(g1) == m1[0] + " AND "@ + m1[1] + " AND "@ + m1[2]);
    let ma = w.all.map_values(|a: Atom| render_atom(a));
    assert(dec_int(1) =~= seq!['1']);
    assert(render_conj(w.all) == ma[0]);
    let gs = w.any.map_values(|g: Seq<Atom>| "("@ + render_conj(g) + ")"@);
    assert(gs.drop_last().len() == 1);
    assert(join_with_spec(gs, " OR "@) == gs[0] + " OR "@ + gs[1]);
    assert(q.sql =~= render_select(sel));
    assert(w.all.drop_last() =~= Seq::<Atom>::empty());
    assert(g0.drop_last().drop_last() =~= Seq::<Atom>::empty());
    assert(g1.drop_last().drop_last().drop_last() =~= Seq::<Atom>::empty());
    assert(g1.drop_last().drop_last() =~= seq![g1[0]]);
    assert(w.any.drop_last().drop_last() =~= Seq::<Seq<Atom>>::empty());
    assert(w.any.drop_last() =~= seq![g0]);
    assert(conj_params(g0) =~= seq![0int, 1int]);
    assert(conj_params(g1) =~= seq![2int, 3int]);
    assert(select_params(sel) =~= seq![0int, 1int, 2int, 3int]);
}

/// The statement that reads a room's active rules returns exactly the enabled rules that
/// route messages from the room: every rule it returns is enabled and routes from the
/// room, and every such rule is returned.
pub proof fn law_active_rules_are_enabled(platform: Seq<char>, room: Seq<char>, table: Seq<SqlRow>, out: Seq<SqlRow>)
    ensures
        crate::db::sync::active_rules_for_spec(platform, room).sql == render_select(active_rules_select()),
        binds(select_params(active_rules_select()), crate::db::sync::active_rules_for_spec(platform, room).params.len()),
        select_result(active_rules_select(), crate::db::sync::active_rules_for_spec(platform, room).params, table, out) ==> {
            &&& forall|i: int| 0 <= i < out.len() ==> col_value(#[trigger] out[i], "enabled"@) == SqlView::Int(1)
                && routes_from(out[i], platform, room)
            &&& forall|k: int| 0 <= k < table.len() && col_value(#[trigger] table[k], "enabled"@) == SqlView::Int(1)
                && routes_from(table[k], platform, room) ==> out.contains(table[k])
        },
{
    lemma_active_rules_text(platform, room);
    let sel = active_rules_select();
    let q = crate::db::sync::active_rules_for_spec(platform, room);
    let w = sel.filter->0;
    if select_result(sel, q.params, table, out) {
        assert forall|i: int| 0 <= i < out.len() implies col_value(#[trigger] out[i], "enabled"@) == SqlView::Int(1)
            && routes_from(out[i], platform, room) by {
            lemma_selected_row(sel, q.params, table, out, i);
            assert(atom_holds(w.all[0], q.params, out[i]));
            let g = choose|g: int| 0 <= g < w.any.len() && conj_holds(#[trigger] w.any[g], q.params, out[i]);
            if g == 0 {
                assert(atom_holds(w.any[0][0], q.params, out[i]));
                assert(atom_holds(w.any[0][1], q.params, out[i]));
            } else {
                assert(atom_holds(w.any[1][0], q.params, out[i]));
                assert(atom_holds(w.any[1][1], q.params, out[i]));
                assert(atom_holds(w.any[1][2], q.params, out[i]));
            }
        }
        assert forall|k: int| 0 <= k < table.len() && col_value(#[trigger] table[k], "enabled"@) == SqlView::Int(1)
            && routes_from(table[k], platform, room) implies out.contains(table[k]) by {
            let r = table[k];
            assert forall|j: int| 0 <= j < w.all.len() implies atom_holds(#[trigger] w.all[j], q.params, r) by {
                assert(j == 0);
            }
            if col_value(r, "source_platform"@) == SqlView::Text(platform) && col_value(r, "source_room"@) == SqlView::Text(room) {
                assert forall|j: int| 0 <= j < w.any[0].len() implies atom_holds(#[trigger] w.any[0][j], q.params, r) by {
                    assert(j == 0 || j == 1);
                }
                assert(conj_holds(w.any[0], q.params, r));
            } else {
                assert forall|j: int| 0 <= j < w.any[1].len() implies atom_holds(#[trigger] w.any[1][j], q.params, r) by {
                    assert(j == 0 || j == 1 || j == 2);
                }
                assert(conj_holds(w.any[1], q.params, r));
            }
            lemma_selected_all(sel, q.params, table, out, k);
        }
    }
}

/// The text lemma and the parameter numbering of the disabling statement.
proof fn lemma_disable_rule_text(sp: Seq<char>, sr: Seq<char>, tp: Seq<char>, tr: Seq<char>)
    ensures
        crate::db::sync::disable_rule_spec(sp, sr, tp, tr).sql == render_update(disable_rule_update()),
        binds(update_params(disable_rule_update()), crate::db::sync::disable_rule_spec(sp, sr, tp, tr).params.len()),
{
    let u = disable_rule_update();
    let q = crate::db::sync::disable_rule_spec(sp, sr, tp, tr);
    let a = u.filter.all;
    reveal_with_fuel(join_with_spec, 5);
    reveal_with_fuel(conj_params, 5);
    reveal_strlit("UPDATE sync_rules SET enabled = 0 WHERE source_platform = ? AND source_room = ? AND target_platform = ? AND target_room = ?");
    reveal_strlit("UPDATE ");
    reveal_strlit("sync_rules");
    reveal_strlit(" SET ");
    reveal_strlit("enabled");
    reveal_strlit(" WHERE ");
    reveal_strlit("source_platform");
    reveal_strlit("source_room");
    reveal_strlit("target_platform");
    reveal_strlit("target_room");
    reveal_strlit(" = ");
    reveal_strlit("?");
    reveal_strlit(" AND ");
    let m = a.map_values(|x: Atom| render_atom(x));
    assert(m.drop_last().drop_last().drop_last().len() == 1);
    assert(m.drop_last().drop_last().len() == 2);
    assert(m.drop_last().len() == 3);
    assert(render_conj(a) == m[0] + " AND "@ + m[1] + " AND "@ + m[2] + " AND "@ + m[3]);
    assert(dec_int(0) =~= seq!['0']);
    assert(q.sql =~= render_update(u));
    assert(a.drop_last().drop_last().drop_last().drop_last() =~= Seq::<Atom>::empty());
    assert(a.drop_last().drop_last().drop_last() =~= seq![a[0]]);
    assert(a.drop_last().drop_last() =~= seq![a[0], a[1]]);
    assert(a.drop_last() =~= seq![a[0], a[1], a[2]]);
    assert(update_params(u) =~= seq![0int, 1int, 2int, 3int]);
}

/// The statement behind `/sync-stop` disables the rule between the two rooms: after it
/// runs, every rule from `sp`/`sr` to `tp`/`tr` has `enabled` set to 0 (and nothing else
/// of it changes), and every other rule is unchanged.
pub proof fn law_sync_stop_disables_the_rule(sp: Seq<char>, sr: Seq<char>, tp: Seq<char>, tr: Seq<char>, table: Seq<SqlRow>)
    ensures
        crate::db::sync::disable_rule_spec(sp, sr, tp, tr).sql == render_update(disable_rule_update()),
        binds(update_params(disable_rule_update()), crate::db::sync::disable_rule_spec(sp, sr, tp, tr).params.len()),
        ({
            let after = update_result(disable_rule_update(), crate::db::sync::disable_rule_spec(sp, sr, tp, tr).params, table);
            &&& after.len() == table.len()
            &&& forall|k: int| 0 <= k < table.len() && is_rule_between(#[trigger] table[k], sp, sr, tp, tr) ==> after[k]
                == table[k].insert("enabled"@, SqlView::Int(0))
            &&& forall|k: int| 0 <= k < table.len() && !is_rule_between(#[trigger] table[k], sp, sr, tp, tr) ==> after[k]
                == table[k]
            &&& forall|k: int| 0 <= k < after.len() && is_rule_between(#[trigger] after[k], sp, sr, tp, tr) ==> col_value(
                after[k],
                "enabled"@,
            ) == SqlView::Int(0)
        }),
{
    lemma_disable_rule_text(sp, sr, tp, tr);
    let u = disable_rule_update();
    let q = crate::db::sync::disable_rule_spec(sp, sr, tp, tr);
    let a = u.filter.all;
    let after = update_result(u, q.params, table);
    reveal_strlit("enabled");
    reveal_strlit("source_platform");
    reveal_strlit("source_room");
    reveal_strlit("target_platform");
    reveal_strlit("target_room");
    assert forall|k: int| 0 <= k < table.len() implies #[trigger] where_holds(u.filter, q.params, table[k])
        == is_rule_between(table[k], sp, sr, tp, tr) by {
        let r = table[k];
        if is_rule_between(r, sp, sr, tp, tr) {
            assert forall|j: int| 0 <= j < a.len() implies atom_holds(#[trigger] a[j], q.params, r) by {
                assert(j == 0 || j == 1 || j == 2 || j == 3);
            }
        } else if where_holds(u.filter, q.params, r) {
            assert(atom_holds(a[0], q.params, r));
            assert(atom_holds(a[1], q.params, r));
            assert(atom_holds(a[2], q.params, r));
            assert(atom_holds(a[3], q.params, r));
        }
    }
    assert forall|k: int| 0 <= k < after.len() && is_rule_between(#[trigger] after[k], sp, sr, tp, tr) implies col_value(
        after[k],
        "enabled"@,
    ) == SqlView::Int(0) by {
        let r = table[k];
        if !where_holds(u.filter, q.params, r) {
            assert(after[k] == r);
        } else {
            assert(after[k] == r.insert("enabled"@, SqlView::Int(0)));
        }
    }
}

/// Once `/sync-stop` has disabled the rule from `sp`/`sr` to `tp`/`tr`, reading the
/// active rules of `sp`/`sr` no longer returns it: no message of that room is routed by
/// it any more.
pub proof fn law_stopped_rule_is_not_active(
    sp: Seq<char>,
    sr: Seq<char>,
    tp: Seq<char>,
    tr: Seq<char>,
    table: Seq<SqlRow>,
    out: Seq<SqlRow>,
)
    requires
        select_result(
            active_rules_select(),
            crate::db::sync::active_rules_for_spec(sp, sr).params,
            update_result(disable_rule_update(), crate::db::sync::disable_rule_spec(sp, sr, tp, tr).params, table),
            out,
        ),
    ensures
        forall|i: int| 0 <= i < out.len() ==> !is_rule_between(#[trigger] out[i], sp, sr, tp, tr),
{
    let after = update_result(disable_rule_update(), crate::db::sync::disable_rule_spec(sp, sr, tp, tr).params, table);
    law_sync_stop_disables_the_rule(sp, sr, tp, tr, table);
    law_active_rules_are_enabled(sp, sr, after, out);
    assert forall|i: int| 0 <= i < out.len() implies !is_rule_between(#[trigger] out[i], sp, sr, tp, tr) by {
        lemma_selected_row(active_rules_select(), crate::db::sync::active_rules_for_spec(sp, sr).params, after, out, i);
        let k = choose|k: int| 0 <= k < after.len() && after[k] == out[i];
        if is_rule_between(out[i], sp, sr, tp, tr) {
            assert(is_rule_between(after[k], sp, sr, tp, tr));
            assert(col_value(after[k], "enabled"@) == SqlView::Int(0));
            assert(col_value(out[i], "enabled"@) == SqlView::Int(1));
        }
    }
}

/// A `SELECT` whose condition is one conjunction and that has no limit returns exactly
/// the rows of the table that satisfy the conjunction.
pub proof fn lemma_conj_select(sel: Select, params: Seq<SqlView>, table: Seq<SqlRow>, out: Seq<SqlRow>)
    requires
        select_result(sel, params, table, out),
        sel.filter matches Some(w) && w.any.len() == 0,
        sel.limit is None,
    ensures
        forall|i: int| 0 <= i < out.len() ==> conj_holds(sel.filter->0.all, params, #[trigger] out[i]),
        forall|k: int| 0 <= k < table.len() && conj_holds(sel.filter->0.all, params, #[trigger] table[k]) ==> out.contains(table[k]),
{
    assert forall|i: int| 0 <= i < out.len() implies conj_holds(sel.filter->0.all, params, #[trigger] out[i]) by {
        lemma_selected_row(sel, params, table, out, i);
    }
    assert forall|k: int| 0 <= k < table.len() && conj_holds(sel.filter->0.all, params, #[trigger] table[k]) implies out.contains(table[k]) by {
        lemma_selected_all(sel, params, table, out, k);
    }
}

/// Reads the subscriptions to a topic.
pub open spec fn by_topic_select() -> Select {
    Select {
        table: "subscriptions"@,
        filter: Some(Where { all: seq![Atom { col: "topic"@, arg: SqlArg::Param(0) }], any: seq![] }),
        order: None,
        limit: None,
    }
}

/// The statement that finds the rooms to broadcast a topic to returns exactly the
/// subscriptions to that topic.
pub proof fn law_topic_subscribers_are_the_topics(topic: Seq<char>, table: Seq<SqlRow>, out: Seq<SqlRow>)
    ensures
        crate::db::subscription::subscriptions_for_room_by_topic_spec(topic).sql == render_select(by_topic_select()),
        binds(select_params(by_topic_select()), crate::db::subscription::subscriptions_for_room_by_topic_spec(topic).params.len()),
        select_result(by_topic_select(), crate::db::subscription::subscriptions_for_room_by_topic_spec(topic).params, table, out) ==> {
            &&& forall|i: int| 0 <= i < out.len() ==> col_value(#[trigger] out[i], "topic"@) == SqlView::Text(topic)
            &&& forall|k: int| 0 <= k < table.len() && col_value(#[trigger] table[k], "topic"@) == SqlView::Text(topic) ==> out.contains(table[k])
        },
{
    let sel = by_topic_select();
    let q = crate::db::subscription::subscriptions_for_room_by_topic_spec(topic);
    let w = sel.filter->0;
    reveal_with_fuel(join_with_spec, 2);
    reveal_with_fuel(conj_params, 2);
    reveal_strlit("SELECT * FROM subscriptions WHERE topic = ?");
    reveal_strlit("subscriptions");
    reveal_strlit("topic");
    reveal_strlit("SELECT * FROM ");
    reveal_strlit(" WHERE ");
    reveal_strlit(" = ");
    reveal_strlit("?");
    assert(render_conj(w.all) == render_atom(w.all[0]));
    assert(q.sql =~= render_select(sel));
    assert(w.all.drop_last() =~= Seq::<Atom>::empty());
    assert(select_params(sel) =~= seq![0int]);
    if select_result(sel, q.params, table, out) {
        lemma_conj_select(sel, q.params, table, out);
        assert forall|i: int| 0 <= i < out.len() implies col_value(#[trigger] out[i], "topic"@) == SqlView::Text(topic) by {
            assert(conj_holds(w.all, q.params, out[i]));
            assert(atom_holds(w.all[0], q.params, out[i]));
        }
        assert forall|k: int| 0 <= k < table.len() && col_value(#[trigger] table[k], "topic"@) == SqlView::Text(topic) implies out.contains(table[k]) by {
            assert forall|j: int| 0 <= j < w.all.len() implies atom_holds(#[trigger] w.all[j], q.params, table[k]) by {
                assert(j == 0);
            }
            assert(conj_holds(w.all, q.params, table[k]));
        }
    }
}

/// Reads all enabled sync rules.
pub open spec fn all_active_rules_select() -> Select {
    Select {
        table: "sync_rules"@,
        filter: Some(Where { all: seq![Atom { col: "enabled"@, arg: SqlArg::Int(1) }], any: seq![] }),
        order: None,
        limit: None,
    }
}

/// The statement that loads all active rules returns exactly the enabled rules.
pub proof fn law_all_active_rules_are_enabled(table: Seq<SqlRow>, out: Seq<SqlRow>)
    ensures
        crate::db::sync::all_active_rules_spec().sql == render_select(all_active_rules_select()),
        binds(select_params(all_active_rules_select()), crate::db::sync::all_active_rules_spec().params.len()),
        select_result(all_active_rules_select(), crate::db::sync::all_active_rules_spec().params, table, out) ==> {
            &&& forall|i: int| 0 <= i < out.len() ==> col_value(#[trigger] out[i], "enabled"@) == SqlView::Int(1)
            &&& forall|k: int| 0 <= k < table.len() && col_value(#[trigger] table[k], "enabled"@) == SqlView::Int(1) ==> out.contains(table[k])
        },
{
    let sel = all_active_rules_select();
    let q = crate::db::sync::all_active_rules_spec();
    let w = sel.filter->0;
    reveal_with_fuel(join_with_spec, 2);
    reveal_with_fuel(conj_params, 2);
    reveal_strlit("SELECT * FROM sync_rules WHERE enabled = 1");
    reveal_strlit("sync_rules");
    reveal_strlit("enabled");
    reveal_strlit("SELECT * FROM ");
    reveal_strlit(" WHERE ");
    reveal_strlit(" = ");
    reveal_strlit("?");
    assert(dec_int(1) =~= seq!['1']);
    assert(render_conj(w.all) == render_atom(w.all[0]));
    assert(q.sql =~= render_select(sel));
    assert(w.all.drop_last() =~= Seq::<Atom>::empty());
    assert(select_params(sel) =~= Seq::<int>::empty());
    if select_result(sel, q.params, table, out) {
        lemma_conj_select(sel, q.params, table, out);
        assert forall|i: int| 0 <= i < out.len() implies col_value(#[trigger] out[i], "enabled"@) == SqlView::Int(1) by {
            assert(conj_holds(w.all, q.params, out[i]));
            assert(atom_holds(w.all[0], q.params, out[i]));
        }
        assert forall|k: int| 0 <= k < table.len() && col_value(#[trigger] table[k], "enabled"@) == SqlView::Int(1) implies out.contains(table[k]) by {
            assert forall|j: int| 0 <= j < w.all.len() implies atom_holds(#[trigger] w.all[j], q.params, table[k]) by {
                assert(j == 0);
            }
            assert(conj_holds(w.all, q.params, table[k]));
        }
    }
}

/// Reads a join request by id.
pub open spec fn join_request_select() -> Select {
    Select {
        table: "join_requests"@,
        filter: Some(Where { all: seq![Atom { col: "id"@, arg: SqlArg::Param(0) }], any: seq![] }),
        order: None,
        limit: None,
    }
}

/// The statement that looks up a join request returns exactly the requests with that id.
pub proof fn law_join_request_by_id(id: i64, table: Seq<SqlRow>, out: Seq<SqlRow>)
    ensures
        crate::db::join::get_join_request_spec(id).sql == render_select(join_request_select()),
        binds(select_params(join_request_select()), crate::db::join::get_join_request_spec(id).params.len()),
        select_result(join_request_select(), crate::db::join::get_join_request_spec(id).params, table, out) ==> {
            &&& forall|i: int| 0 <= i < out.len() ==> col_value(#[trigger] out[i], "id"@) == SqlView::Int(id)
            &&& forall|k: int| 0 <= k < table.len() && col_value(#[trigger] table[k], "id"@) == SqlView::Int(id) ==> out.contains(table[k])
        },
{
    let sel = join_request_select();
    let q = crate::db::join::get_join_request_spec(id);
    let w = sel.filter->0;
    reveal_with_fuel(join_with_spec, 2);
    reveal_with_fuel(conj_params, 2);
    reveal_strlit("SELECT * FROM join_requests WHERE id = ?");
    reveal_strlit("join_requests");
    reveal_strlit("id");
    reveal_strlit("SELECT * FROM ");
    reveal_strlit(" WHERE ");
    reveal_strlit(" = ");
    reveal_strlit("?");
    assert(render_conj(w.all) == render_atom(w.all[0]));
    assert(q.sql =~= render_select(sel));
    assert(w.all.drop_last() =~= Seq::<Atom>::empty());
    assert(select_params(sel) =~= seq![0int]);
    if select_result(sel, q.params, table, out) {
        lemma_conj_select(sel, q.params, table, out);
        assert forall|i: int| 0 <= i < out.len() implies col_value(#[trigger] out[i], "id"@) == SqlView::Int(id) by {
            assert(conj_holds(w.all, q.params, out[i]));
            assert(atom_holds(w.all[0], q.params, out[i]));
        }
        assert forall|k: int| 0 <= k < table.len() && col_value(#[trigger] table[k], "id"@) == SqlView::Int(id) implies out.contains(table[k]) by {
            assert forall|j: int| 0 <= j < w.all.len() implies atom_holds(#[trigger] w.all[j], q.params, table[k]) by {
                assert(j == 0);
            }
            assert(conj_holds(w.all, q.params, table[k]));
        }
    }
}

/// Reads a metadata entry by key.
pub open spec fn meta_select() -> Select {
    Select {
        table: "bot_meta"@,
        filter: Some(Where { all: seq![Atom { col: "key"@, arg: SqlArg::Param(0) }], any: seq![] }),
        order: None,
        limit: None,
    }
}

/// The statement that reads a metadata value returns exactly the entries under that key.
pub proof fn law_meta_by_key(key: Seq<char>, table: Seq<SqlRow>, out: Seq<SqlRow>)
    ensures
        crate::db::meta::get_meta_spec(key).sql == render_select(meta_select()),
        binds(select_params(meta_select()), crate::db::meta::get_meta_spec(key).params.len()),
        select_result(meta_select(), crate::db::meta::get_meta_spec(key).params, table, out) ==> {
            &&& forall|i: int| 0 <= i < out.len() ==> col_value(#[trigger] out[i], "key"@) == SqlView::Text(key)
            &&& forall|k: int| 0 <= k < table.len() && col_value(#[trigger] table[k], "key"@) == SqlView::Text(key) ==> out.contains(table[k])
        },
{
    let sel = meta_select();
    let q = crate::db::meta::get_meta_spec(key);
    let w = sel.filter->0;
    reveal_with_fuel(join_with_spec, 2);
    reveal_with_fuel(conj_params, 2);
    reveal_strlit("SELECT * FROM bot_meta WHERE key = ?");
    reveal_strlit("bot_meta");
    reveal_strlit("key");
    reveal_strlit("SELECT * FROM ");
    reveal_strlit(" WHERE ");
    reveal_strlit(" = ");
    reveal_strlit("?");
    assert(render_conj(w.all) == render_atom(w.all[0]));
    assert(q.sql =~= render_select(sel));
    assert(w.all.drop_last() =~= Seq::<Atom>::empty());
    assert(select_params(sel) =~= seq![0int]);
    if select_result(sel, q.params, table, out) {
        lemma_conj_select(sel, q.params, table, out);
        assert forall|i: int| 0 <= i < out.len() implies col_value(#[trigger] out[i], "key"@) == SqlView::Text(key) by {
            assert(conj_holds(w.all, q.params, out[i]));
            assert(atom_holds(w.all[0], q.params, out[i]));
        }
        assert forall|k: int| 0 <= k < table.len() && col_value(#[trigger] table[k], "key"@) == SqlView::Text(key) implies out.contains(table[k]) by {
            assert forall|j: int| 0 <= j < w.all.len() implies atom_holds(#[trigger] w.all[j], q.params, table[k]) by {
                assert(j == 0);
            }
            assert(conj_holds(w.all, q.params, table[k]));
        }
    }
}

/// Reads the rooms of a collection.
pub open spec fn collection_members_select() -> Select {
    Select {
        table: "room_collection_members"@,
        filter: Some(Where { all: seq![Atom { col: "collection_id"@, arg: SqlArg::Param(0) }], any: seq![] }),
        order: None,
        limit: None,
    }
}

/// The statement that lists a collection's rooms returns exactly that collection's
/// memberships.
pub proof fn law_collection_members_by_collection(collection_id: i64, table: Seq<SqlRow>, out: Seq<SqlRow>)
    ensures
        crate::db::collection::rooms_in_collection_spec(collection_id).sql == render_select(collection_members_select()),
        binds(select_params(collection_members_select()), crate::db::collection::rooms_in_collection_spec(collection_id).params.len()),
        select_result(collection_members_select(), crate::db::collection::rooms_in_collection_spec(collection_id).params, table, out) ==> {
            &&& forall|i: int| 0 <= i < out.len() ==> col_value(#[trigger] out[i], "collection_id"@) == SqlView::Int(collection_id)
            &&& forall|k: int| 0 <= k < table.len() && col_value(#[trigger] table[k], "collection_id"@) == SqlView::Int(collection_id) ==> out.contains(table[k])
        },
{
    let sel = collection_members_select();
    let q = crate::db::collection::rooms_in_collection_spec(collection_id);
    let w = sel.filter->0;
    reveal_with_fuel(join_with_spec, 2);
    reveal_with_fuel(conj_params, 2);
    reveal_strlit("SELECT * FROM room_collection_members WHERE collection_id = ?");
    reveal_strlit("room_collection_members");
    reveal_strlit("collection_id");
    reveal_strlit("SELECT * FROM ");
    reveal_strlit(" WHERE ");
    reveal_strlit(" = ");
    reveal_strlit("?");
    assert(render_conj(w.all) == render_atom(w.all[0]));
    assert(q.sql =~= render_select(sel));
    assert(w.all.drop_last() =~= Seq::<Atom>::empty());
    assert(select_params(sel) =~= seq![0int]);
    if select_result(sel, q.params, table, out) {
        lemma_conj_select(sel, q.params, table, out);
        assert forall|i: int| 0 <= i < out.len() implies col_value(#[trigger] out[i], "collection_id"@) == SqlView::Int(collection_id) by {
            assert(conj_holds(w.all, q.params, out[i]));
            assert(atom_holds(w.all[0], q.params, out[i]));
        }
        assert forall|k: int| 0 <= k < table.len() && col_value(#[trigger] table[k], "collection_id"@) == SqlView::Int(collection_id) implies out.contains(table[k]) by {
            assert forall|j: int| 0 <= j < w.all.len() implies atom_holds(#[trigger] w.all[j], q.params, table[k]) by {
                assert(j == 0);
            }
            assert(conj_holds(w.all, q.params, table[k]));
        }
    }
}

/// Reads a room's poll state.
pub open spec fn poll_state_select() -> Select {
    Select {
        table: "poll_state"@,
        filter: Some(Where { all: seq![eq_param("platform"@, 0), eq_param("room_id"@, 1)], any: seq![] }),
        order: None,
        limit: None,
    }
}

/// The statement that reads a room's poll offset returns exactly that room's state.
pub proof fn law_offset_is_the_rooms(platform: Seq<char>, room: Seq<char>, table: Seq<SqlRow>, out: Seq<SqlRow>)
    ensures
        crate::db::poll::get_offset_spec(platform, room).sql == render_select(poll_state_select()),
        binds(select_params(poll_state_select()), crate::db::poll::get_offset_spec(platform, room).params.len()),
        select_result(poll_state_select(), crate::db::poll::get_offset_spec(platform, room).params, table, out) ==> {
            &&& forall|i: int| 0 <= i < out.len() ==> in_room(#[trigger] out[i], platform, room)
            &&& forall|k: int| 0 <= k < table.len() && in_room(#[trigger] table[k], platform, room) ==> out.contains(table[k])
        },
{
    let sel = poll_state_select();
    let q = crate::db::poll::get_offset_spec(platform, room);
    let w = sel.filter->0;
    reveal_with_fuel(join_with_spec, 3);
    reveal_with_fuel(conj_params, 3);
    reveal_strlit("SELECT * FROM poll_state WHERE platform = ? AND room_id = ?");
    reveal_strlit("SELECT * FROM ");
    reveal_strlit("poll_state");
    reveal_strlit(" WHERE ");
    reveal_strlit("platform");
    reveal_strlit("room_id");
    reveal_strlit(" = ");
    reveal_strlit("?");
    reveal_strlit(" AND ");
    let m = w.all.map_values(|a: Atom| render_atom(a));
    assert(m.drop_last().len() == 1);
    assert(render_conj(w.all) == m[0] + " AND "@ + m[1]);
    assert(q.sql =~= render_select(sel));
    assert(w.all.drop_last().drop_last() =~= Seq::<Atom>::empty());
    assert(select_params(sel) =~= seq![0int, 1int]);
    if select_result(sel, q.params, table, out) {
        lemma_conj_select(sel, q.params, table, out);
        assert forall|i: int| 0 <= i < out.len() implies in_room(#[trigger] out[i], platform, room) by {
            assert(conj_holds(w.all, q.params, out[i]));
            assert(atom_holds(w.all[0], q.params, out[i]));
            assert(atom_holds(w.all[1], q.params, out[i]));
        }
        assert forall|k: int| 0 <= k < table.len() && in_room(#[trigger] table[k], platform, room) implies out.contains(table[k]) by {
            assert forall|j: int| 0 <= j < w.all.len() implies atom_holds(#[trigger] w.all[j], q.params, table[k]) by {
                assert(j == 0 || j == 1);
            }
            assert(conj_holds(w.all, q.params, table[k]));
        }
    }
}

/// Reads every row of `table`, ordered by `name`.
pub open spec fn by_name_select(table: Seq<char>) -> Select {
    Select { table, filter: None, order: Some(("name"@, false)), limit: None }
}

/// The statement that lists the child bots returns every child bot, each as often as
/// it is stored, ordered by name.
pub proof fn law_child_bots_all_by_name(table: Seq<SqlRow>, out: Seq<SqlRow>)
    ensures
        crate::db::child::list_child_bots_spec().sql == render_select(by_name_select("child_bots"@)),
        binds(select_params(by_name_select("child_bots"@)), crate::db::child::list_child_bots_spec().params.len()),
        select_result(by_name_select("child_bots"@), crate::db::child::list_child_bots_spec().params, table, out) ==> {
            &&& out.to_multiset() == table.to_multiset()
            &&& forall|i: int, j: int| 0 <= i < j < out.len() ==> key_le(
                col_value(#[trigger] out[i], "name"@),
                col_value(#[trigger] out[j], "name"@),
            )
        },
{
    reveal_strlit("SELECT * FROM child_bots ORDER BY name ASC");
    reveal_strlit("SELECT * FROM ");
    reveal_strlit("child_bots");
    reveal_strlit(" ORDER BY ");
    reveal_strlit("name");
    reveal_strlit(" ASC");
    assert(crate::db::child::list_child_bots_spec().sql =~= render_select(by_name_select("child_bots"@)));
    assert(select_params(by_name_select("child_bots"@)) =~= Seq::<int>::empty());
}

/// The statement that lists the room collections returns every collection, each as
/// often as it is stored, ordered by name.
pub proof fn law_collections_all_by_name(table: Seq<SqlRow>, out: Seq<SqlRow>)
    ensures
        crate::db::collection::list_collections_spec().sql == render_select(by_name_select("room_collections"@)),
        binds(select_params(by_name_select("room_collections"@)), crate::db::collection::list_collections_spec().params.len()),
        select_result(by_name_select("room_collections"@), crate::db::collection::list_collections_spec().params, table, out) ==> {
            &&& out.to_multiset() == table.to_multiset()
            &&& forall|i: int, j: int| 0 <= i < j < out.len() ==> key_le(
                col_value(#[trigger] out[i], "name"@),
                col_value(#[trigger] out[j], "name"@),
            )
        },
{
    reveal_strlit("SELECT * FROM room_collections ORDER BY name ASC");
    reveal_strlit("SELECT * FROM ");
    reveal_strlit("room_collections");
    reveal_strlit(" ORDER BY ");
    reveal_strlit("name");
    reveal_strlit(" ASC");
    assert(crate::db::collection::list_collections_spec().sql =~= render_select(by_name_select("room_collections"@)));
    assert(select_params(by_name_select("room_collections"@)) =~= Seq::<int>::empty());
}

} // verus!
