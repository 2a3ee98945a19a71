//! The SQL text the scenarios send: table creation, the parameterised
//! statements of each scenario and the single bulk insert statement.
use vstd::prelude::*;

use crate::plan::{Aggregate, Layer};
use crate::scenarios::{CREATE_TABLE_SQL, DB, TBL, TBL2};
use crate::text::{decimal, int_decimal, push_decimal, push_int_decimal};

verus! {

/// How statement parameters are written.
#[derive(Clone, Copy, Debug, PartialEq, Eq, Structural)]
pub enum ParamStyle {
    /// `$1`, `$2`, ... (raw FFI, safe wrapper, SeaORM).
    Numbered,
    /// `?` for every parameter (sqlx).
    Anonymous,
}

/// The parameter style of a layer.
pub open spec fn style_of(l: Layer) -> ParamStyle {
    if l == Layer::Sqlx {
        ParamStyle::Anonymous
    } else {
        ParamStyle::Numbered
    }
}

/// The parameter style of a layer.
pub fn layer_style(l: Layer) -> (r: ParamStyle)
    ensures
        r == style_of(l),
{
    match l {
        Layer::Sqlx => ParamStyle::Anonymous,
        _ => ParamStyle::Numbered,
    }
}

/// The `n`-th parameter.
pub open spec fn param(style: ParamStyle, n: nat) -> Seq<char> {
    match style {
        ParamStyle::Numbered => "$"@ + decimal(n),
        ParamStyle::Anonymous => "?"@,
    }
}

/// A table of the benchmark database, qualified by the database's name.
pub open spec fn qualified(table: Seq<char>) -> Seq<char> {
    DB@ + "."@ + table
}

/// `INSERT INTO <table> (id, name, x) VALUES (p1, p2, p3);`
pub open spec fn insert_row_text(table: Seq<char>, style: ParamStyle) -> Seq<char> {
    "INSERT INTO "@ + qualified(table) + " (id, name, x) VALUES ("@ + param(style, 1) + ", "@
        + param(style, 2) + ", "@ + param(style, 3) + ");"@
}

/// `SELECT name FROM bench.t WHERE id = p1;`
pub open spec fn select_name_text(style: ParamStyle) -> Seq<char> {
    "SELECT name FROM "@ + qualified(TBL@) + " WHERE id = "@ + param(style, 1) + ";"@
}

/// `SELECT id FROM bench.t WHERE id = p1;`
pub open spec fn select_id_text(style: ParamStyle) -> Seq<char> {
    "SELECT id FROM "@ + qualified(TBL@) + " WHERE id = "@ + param(style, 1) + ";"@
}

/// `SELECT id, name, x FROM bench.t WHERE id BETWEEN 1 AND p1;`
pub open spec fn select_range_text(style: ParamStyle) -> Seq<char> {
    "SELECT id, name, x FROM "@ + qualified(TBL@) + " WHERE id BETWEEN 1 AND "@ + param(style, 1)
        + ";"@
}

/// The name of an aggregate function.
pub open spec fn aggregate_name(a: Aggregate) -> Seq<char> {
    match a {
        Aggregate::Sum => "SUM"@,
        Aggregate::Max => "MAX"@,
    }
}

/// `SELECT SUM(x) FROM bench.t;` or `SELECT MAX(x) FROM bench.t;`
pub open spec fn aggregate_text(a: Aggregate) -> Seq<char> {
    "SELECT "@ + aggregate_name(a) + "(x) FROM "@ + qualified(TBL@) + ";"@
}

/// The inner join of the two tables on `id`.
pub open spec fn join_text() -> Seq<char> {
    "SELECT t.id, t.name, u.x FROM "@ + qualified(TBL@) + " AS t INNER JOIN "@ + qualified(TBL2@)
        + " AS u ON t.id = u.id;"@
}

/// `UPDATE bench.t SET x = p1 WHERE id = p2;`
pub open spec fn update_text(style: ParamStyle) -> Seq<char> {
    "UPDATE "@ + qualified(TBL@) + " SET x = "@ + param(style, 1) + " WHERE id = "@ + param(style, 2)
        + ";"@
}

/// `DELETE FROM bench.t WHERE id = p1;`
pub open spec fn delete_text(style: ParamStyle) -> Seq<char> {
    "DELETE FROM "@ + qualified(TBL@) + " WHERE id = "@ + param(style, 1) + ";"@
}

/// `CREATE DATABASE bench;`
pub open spec fn create_database_text() -> Seq<char> {
    "CREATE DATABASE "@ + DB@ + ";"@
}

/// `CREATE TABLE <table> (id bigint, name string, x double);`
pub open spec fn create_table_text(table: Seq<char>) -> Seq<char> {
    "CREATE TABLE "@ + qualified(table) + " (id bigint, name string, x double);"@
}

/// The schema constant is the creation statement of the main table.
pub proof fn lemma_create_table_constant()
    ensures
        CREATE_TABLE_SQL@ == create_table_text(TBL@),
{
    reveal_strlit("CREATE TABLE bench.t (id bigint, name string, x double);");
    reveal_strlit("CREATE TABLE ");
    reveal_strlit(".");
    reveal_strlit("bench");
    reveal_strlit("t");
    reveal_strlit(" (id bigint, name string, x double);");
    assert(CREATE_TABLE_SQL@ =~= create_table_text(TBL@));
}

fn push_param(out: &mut String, style: ParamStyle, n: u8)
    ensures
        final(out)@ == old(out)@ + param(style, n as nat),
{
    match style {
        ParamStyle::Numbered => {
            out.append("$");
            push_decimal(out, n as u128);
            assert(out@ =~= old(out)@ + param(style, n as nat));
        },
        ParamStyle::Anonymous => out.append("?"),
    }
}

fn push_qualified(out: &mut String, table: &str)
    ensures
        final(out)@ == old(out)@ + qualified(table@),
{
    out.append(DB);
    out.append(".");
    out.append(table);
    assert(out@ =~= old(out)@ + qualified(table@));
}

/// The statement that inserts one row into `table`.
pub fn insert_row_sql(table: &str, style: ParamStyle) -> (r: String)
    ensures
        r@ == insert_row_text(table@, style),
{
    let mut out = String::new();
    out.append("INSERT INTO ");
    push_qualified(&mut out, table);
    out.append(" (id, name, x) VALUES (");
    push_param(&mut out, style, 1);
    out.append(", ");
    push_param(&mut out, style, 2);
    out.append(", ");
    push_param(&mut out, style, 3);
    out.append(");");
    assert(out@ =~= insert_row_text(table@, style));
    out
}

/// The point lookup of a row's name.
pub fn select_name_sql(style: ParamStyle) -> (r: String)
    ensures
        r@ == select_name_text(style),
{
    let mut out = String::new();
    out.append("SELECT name FROM ");
    push_qualified(&mut out, TBL);
    out.append(" WHERE id = ");
    push_param(&mut out, style, 1);
    out.append(";");
    assert(out@ =~= select_name_text(style));
    out
}

/// The point lookup of a row's id.
pub fn select_id_sql(style: ParamStyle) -> (r: String)
    ensures
        r@ == select_id_text(style),
{
    let mut out = String::new();
    out.append("SELECT id FROM ");
    push_qualified(&mut out, TBL);
    out.append(" WHERE id = ");
    push_param(&mut out, style, 1);
    out.append(";");
    assert(out@ =~= select_id_text(style));
    out
}

/// The scan of the rows with ids from 1 up to a parameter.
pub fn select_range_sql(style: ParamStyle) -> (r: String)
    ensures
        r@ == select_range_text(style),
{
    let mut out = String::new();
    out.append("SELECT id, name, x FROM ");
    push_qualified(&mut out, TBL);
    out.append(" WHERE id BETWEEN 1 AND ");
    push_param(&mut out, style, 1);
    out.append(";");
    assert(out@ =~= select_range_text(style));
    out
}

/// The aggregation of the `x` column.
pub fn aggregate_sql(a: Aggregate) -> (r: String)
    ensures
        r@ == aggregate_text(a),
{
    let mut out = String::new();
    out.append("SELECT ");
    match a {
        Aggregate::Sum => out.append("SUM"),
        Aggregate::Max => out.append("MAX"),
    }
    out.append("(x) FROM ");
    push_qualified(&mut out, TBL);
    out.append(";");
    assert(out@ =~= aggregate_text(a));
    out
}

/// The inner join of the two tables.
pub fn join_sql() -> (r: String)
    ensures
        r@ == join_text(),
{
    let mut out = String::new();
    out.append("SELECT t.id, t.name, u.x FROM ");
    push_qualified(&mut out, TBL);
    out.append(" AS t INNER JOIN ");
    push_qualified(&mut out, TBL2);
    out.append(" AS u ON t.id = u.id;");
    assert(out@ =~= join_text());
    out
}

/// The update of one row's `x`.
pub fn update_sql(style: ParamStyle) -> (r: String)
    ensures
        r@ == update_text(style),
{
    let mut out = String::new();
    out.append("UPDATE ");
    push_qualified(&mut out, TBL);
    out.append(" SET x = ");
    push_param(&mut out, style, 1);
    out.append(" WHERE id = ");
    push_param(&mut out, style, 2);
    out.append(";");
    assert(out@ =~= update_text(style));
    out
}

/// The deletion of one row.
pub fn delete_sql(style: ParamStyle) -> (r: String)
    ensures
        r@ == delete_text(style),
{
    let mut out = String::new();
    out.append("DELETE FROM ");
    push_qualified(&mut out, TBL);
    out.append(" WHERE id = ");
    push_param(&mut out, style, 1);
    out.append(";");
    assert(out@ =~= delete_text(style));
    out
}

/// The creation of the benchmark database.
pub fn create_database_sql() -> (r: String)
    ensures
        r@ == create_database_text(),
{
    let mut out = String::new();
    out.append("CREATE DATABASE ");
    out.append(DB);
    out.append(";");
    assert(out@ =~= create_database_text());
    out
}

/// The creation of a table of the benchmark schema.
pub fn create_table_sql(table: &str) -> (r: String)
    ensures
        r@ == create_table_text(table@),
{
    let mut out = String::new();
    out.append("CREATE TABLE ");
    push_qualified(&mut out, table);
    out.append(" (id bigint, name string, x double);");
    assert(out@ =~= create_table_text(table@));
    out
}

/// One row of the bulk insert, with its `x` already rendered as text.
pub struct RowLiteral {
    pub id: i64,
    pub name: String,
    pub x_text: String,
}

/// `(id, 'name', x)`
pub open spec fn row_literal_text(row: RowLiteral) -> Seq<char> {
    "("@ + int_decimal(row.id as int) + ", '"@ + row.name@ + "', "@ + row.x_text@ + ")"@
}

/// The row literals, separated by `, `.
pub open spec fn row_list_text(rows: Seq<RowLiteral>) -> Seq<char>
    decreases rows.len(),
{
    if rows.len() == 0 {
        Seq::empty()
    } else if rows.len() == 1 {
        row_literal_text(rows[0])
    } else {
        row_list_text(rows.drop_last()) + ", "@ + row_literal_text(rows.last())
    }
}

/// The single statement that inserts all `rows` into the main table.
pub open spec fn bulk_insert_text(rows: Seq<RowLiteral>) -> Seq<char> {
    "INSERT INTO "@ + qualified(TBL@) + " (id, name, x) VALUES "@ + row_list_text(rows) + ";"@
}

fn push_row_literal(out: &mut String, row: &RowLiteral)
    ensures
        final(out)@ == old(out)@ + row_literal_text(*row),
{
    out.append("(");
    push_int_decimal(out, row.id);
    out.append(", '");
    out.append(row.name.as_str());
    out.append("', ");
    out.append(row.x_text.as_str());
    out.append(")");
    assert(out@ =~= old(out)@ + row_literal_text(*row));
}

/// The bulk insert statement of `rows`.
pub fn bulk_insert_sql(rows: &[RowLiteral]) -> (r: String)
    ensures
        r@ == bulk_insert_text(rows@),
{
    let mut out = String::new();
    out.append("INSERT INTO ");
    push_qualified(&mut out, TBL);
    out.append(" (id, name, x) VALUES ");
    let ghost head = out@;
    let n: usize = rows.len();
    let mut i: usize = 0;
    assert(rows@.take(0) =~= Seq::<RowLiteral>::empty());
    assert(head + row_list_text(rows@.take(0)) =~= head);
    while i < n
        invariant
            n == rows@.len(),
            i <= n,
            out@ == head + row_list_text(rows@.take(i as int)),
        decreases n - i,
    {
        if i > 0 {
            out.append(", ");
        }
        push_row_literal(&mut out, &rows[i]);
        proof {
            let next = rows@.take(i + 1);
            assert(next.drop_last() =~= rows@.take(i as int));
            assert(next.last() == rows@[i as int]);
            if i == 0 {
                assert(row_list_text(rows@.take(0)) =~= Seq::<char>::empty());
                assert(out@ =~= head + row_list_text(next));
            } else {
                assert(out@ =~= head + row_list_text(next));
            }
        }
        i = i + 1;
    }
    assert(rows@.take(n as int) =~= rows@);
    out.append(";");
    assert(out@ =~= bulk_insert_text(rows@));
    out
}

/// Only the sqlx adapter writes its parameters as anonymous `?`; the raw
/// bindings, the safe wrapper and the SeaORM adapter number them `$1`,
/// `$2`, `$3`.
pub proof fn lemma_layer_styles()
    ensures
        forall|l: Layer| (#[trigger] style_of(l) == ParamStyle::Anonymous) <==> l == Layer::Sqlx,
        forall|l: Layer| l != Layer::Sqlx ==> #[trigger] style_of(l) == ParamStyle::Numbered,
        forall|l: Layer, n: nat|
            #![trigger param(style_of(l), n)]
            l == Layer::Sqlx ==> param(style_of(l), n) == seq!['?'],
        forall|l: Layer, n: nat|
            #![trigger param(style_of(l), n)]
            l != Layer::Sqlx ==> param(style_of(l), n) == seq!['$'] + decimal(n),
{
    reveal_strlit("?");
    reveal_strlit("$");
    assert("?"@ =~= seq!['?']);
    assert("$"@ =~= seq!['$']);
}

proof fn lemma_small_params()
    ensures
        param(ParamStyle::Numbered, 1) == "$1"@,
        param(ParamStyle::Numbered, 2) == "$2"@,
        param(ParamStyle::Numbered, 3) == "$3"@,
        param(ParamStyle::Anonymous, 1) == "?"@,
        param(ParamStyle::Anonymous, 2) == "?"@,
        param(ParamStyle::Anonymous, 3) == "?"@,
{
    reveal_strlit("$");
    reveal_strlit("$1");
    reveal_strlit("$2");
    reveal_strlit("$3");
    assert(decimal(1) == seq!['1']);
    assert(decimal(2) == seq!['2']);
    assert(decimal(3) == seq!['3']);
    assert(param(ParamStyle::Numbered, 1) =~= "$1"@);
    assert(param(ParamStyle::Numbered, 2) =~= "$2"@);
    assert(param(ParamStyle::Numbered, 3) =~= "$3"@);
}

/// The statements each scenario sends, written out in full for both
/// parameter styles.
pub proof fn lemma_statement_texts()
    ensures
        insert_row_text(TBL@, ParamStyle::Numbered)
            == "INSERT INTO bench.t (id, name, x) VALUES ($1, $2, $3);"@,
        insert_row_text(TBL@, ParamStyle::Anonymous)
            == "INSERT INTO bench.t (id, name, x) VALUES (?, ?, ?);"@,
        insert_row_text(TBL2@, ParamStyle::Numbered)
            == "INSERT INTO bench.u (id, name, x) VALUES ($1, $2, $3);"@,
        insert_row_text(TBL2@, ParamStyle::Anonymous)
            == "INSERT INTO bench.u (id, name, x) VALUES (?, ?, ?);"@,
        select_name_text(ParamStyle::Numbered) == "SELECT name FROM bench.t WHERE id = $1;"@,
        select_name_text(ParamStyle::Anonymous) == "SELECT name FROM bench.t WHERE id = ?;"@,
        select_id_text(ParamStyle::Numbered) == "SELECT id FROM bench.t WHERE id = $1;"@,
        select_id_text(ParamStyle::Anonymous) == "SELECT id FROM bench.t WHERE id = ?;"@,
        select_range_text(ParamStyle::Numbered)
            == "SELECT id, name, x FROM bench.t WHERE id BETWEEN 1 AND $1;"@,
        select_range_text(ParamStyle::Anonymous)
            == "SELECT id, name, x FROM bench.t WHERE id BETWEEN 1 AND ?;"@,
        aggregate_text(Aggregate::Sum) == "SELECT SUM(x) FROM bench.t;"@,
        aggregate_text(Aggregate::Max) == "SELECT MAX(x) FROM bench.t;"@,
        join_text()
            == "SELECT t.id, t.name, u.x FROM bench.t AS t INNER JOIN bench.u AS u ON t.id = u.id;"@,
        update_text(ParamStyle::Numbered) == "UPDATE bench.t SET x = $1 WHERE id = $2;"@,
        update_text(ParamStyle::Anonymous) == "UPDATE bench.t SET x = ? WHERE id = ?;"@,
        delete_text(ParamStyle::Numbered) == "DELETE FROM bench.t WHERE id = $1;"@,
        delete_text(ParamStyle::Anonymous) == "DELETE FROM bench.t WHERE id = ?;"@,
        create_database_text() == "CREATE DATABASE bench;"@,
        create_table_text(TBL@) == "CREATE TABLE bench.t (id bigint, name string, x double);"@,
        create_table_text(TBL2@) == "CREATE TABLE bench.u (id bigint, name string, x double);"@,
{
    lemma_small_params();
    reveal_strlit("bench");
    reveal_strlit("t");
    reveal_strlit("u");
    reveal_strlit(".");
    reveal_strlit(", ");
    reveal_strlit(";");
    reveal_strlit("?");
    reveal_strlit("$1");
    reveal_strlit("$2");
    reveal_strlit("$3");
    reveal_strlit("INSERT INTO ");
    reveal_strlit(" (id, name, x) VALUES (");
    reveal_strlit(");");
    reveal_strlit("SELECT name FROM ");
    reveal_strlit(" WHERE id = ");
    reveal_strlit("SELECT id FROM ");
    reveal_strlit("SELECT id, name, x FROM ");
    reveal_strlit(" WHERE id BETWEEN 1 AND ");
    reveal_strlit("SELECT ");
    reveal_strlit("SUM");
    reveal_strlit("MAX");
    reveal_strlit("(x) FROM ");
    reveal_strlit("SELECT t.id, t.name, u.x FROM ");
    reveal_strlit(" AS t INNER JOIN ");
    reveal_strlit(" AS u ON t.id = u.id;");
    reveal_strlit("UPDATE ");
    reveal_strlit(" SET x = ");
    reveal_strlit("DELETE FROM ");
    reveal_strlit("CREATE DATABASE ");
    reveal_strlit("CREATE TABLE ");
    reveal_strlit(" (id bigint, name string, x double);");
    reveal_strlit("INSERT INTO bench.t (id, name, x) VALUES ($1, $2, $3);");
    reveal_strlit("INSERT INTO bench.t (id, name, x) VALUES (?, ?, ?);");
    reveal_strlit("INSERT INTO bench.u (id, name, x) VALUES ($1, $2, $3);");
    reveal_strlit("INSERT INTO bench.u (id, name, x) VALUES (?, ?, ?);");
    reveal_strlit("SELECT name FROM bench.t WHERE id = $1;");
    reveal_strlit("SELECT name FROM bench.t WHERE id = ?;");
    reveal_strlit("SELECT id FROM bench.t WHERE id = $1;");
    reveal_strlit("SELECT id FROM bench.t WHERE id = ?;");
    reveal_strlit("SELECT id, name, x FROM bench.t WHERE id BETWEEN 1 AND $1;");
    reveal_strlit("SELECT id, name, x FROM bench.t WHERE id BETWEEN 1 AND ?;");
    reveal_strlit("SELECT SUM(x) FROM bench.t;");
    reveal_strlit("SELECT MAX(x) FROM bench.t;");
    reveal_strlit("SELECT t.id, t.name, u.x FROM bench.t AS t INNER JOIN bench.u AS u ON t.id = u.id;");
    reveal_strlit("UPDATE bench.t SET x = $1 WHERE id = $2;");
    reveal_strlit("UPDATE bench.t SET x = ? WHERE id = ?;");
    reveal_strlit("DELETE FROM bench.t WHERE id = $1;");
    reveal_strlit("DELETE FROM bench.t WHERE id = ?;");
    reveal_strlit("CREATE DATABASE bench;");
    reveal_strlit("CREATE TABLE bench.t (id bigint, name string, x double);");
    reveal_strlit("CREATE TABLE bench.u (id bigint, name string, x double);");
    assert(insert_row_text(TBL@, ParamStyle::Numbered)
        =~= "INSERT INTO bench.t (id, name, x) VALUES ($1, $2, $3);"@);
    assert(insert_row_text(TBL@, ParamStyle::Anonymous)
        =~= "INSERT INTO bench.t (id, name, x) VALUES (?, ?, ?);"@);
    assert(insert_row_text(TBL2@, ParamStyle::Numbered)
        =~= "INSERT INTO bench.u (id, name, x) VALUES ($1, $2, $3);"@);
    assert(insert_row_text(TBL2@, ParamStyle::Anonymous)
        =~= "INSERT INTO bench.u (id, name, x) VALUES (?, ?, ?);"@);
    assert(select_name_text(ParamStyle::Numbered) =~= "SELECT name FROM bench.t WHERE id = $1;"@);
    assert(select_name_text(ParamStyle::Anonymous) =~= "SELECT name FROM bench.t WHERE id = ?;"@);
    assert(select_id_text(ParamStyle::Numbered) =~= "SELECT id FROM bench.t WHERE id = $1;"@);
    assert(select_id_text(ParamStyle::Anonymous) =~= "SELECT id FROM bench.t WHERE id = ?;"@);
    assert(select_range_text(ParamStyle::Numbered)
        =~= "SELECT id, name, x FROM bench.t WHERE id BETWEEN 1 AND $1;"@);
    assert(select_range_text(ParamStyle::Anonymous)
        =~= "SELECT id, name, x FROM bench.t WHERE id BETWEEN 1 AND ?;"@);
    assert(aggregate_text(Aggregate::Sum) =~= "SELECT SUM(x) FROM bench.t;"@);
    assert(aggregate_text(Aggregate::Max) =~= "SELECT MAX(x) FROM bench.t;"@);
    assert(join_text()
        =~= "SELECT t.id, t.name, u.x FROM bench.t AS t INNER JOIN bench.u AS u ON t.id = u.id;"@);
    assert(update_text(ParamStyle::Numbered) =~= "UPDATE bench.t SET x = $1 WHERE id = $2;"@);
    assert(update_text(ParamStyle::Anonymous) =~= "UPDATE bench.t SET x = ? WHERE id = ?;"@);
    assert(delete_text(ParamStyle::Numbered) =~= "DELETE FROM bench.t WHERE id = $1;"@);
    assert(delete_text(ParamStyle::Anonymous) =~= "DELETE FROM bench.t WHERE id = ?;"@);
    assert(create_database_text() =~= "CREATE DATABASE bench;"@);
    assert(create_table_text(TBL@) =~= "CREATE TABLE bench.t (id bigint, name string, x double);"@);
    assert(create_table_text(TBL2@) =~= "CREATE TABLE bench.u (id bigint, name string, x double);"@);
}

/// The pieces of the bulk row list: the first row literal as it is, every
/// later one behind a `, ` separator.
pub open spec fn row_list_pieces(rows: Seq<RowLiteral>) -> Seq<Seq<char>> {
    Seq::new(
        rows.len(),
        |k: int|
            if k == 0 {
                row_literal_text(rows[0])
            } else {
                seq![',', ' '] + row_literal_text(rows[k])
            },
    )
}

/// The row list of the bulk statement is the row literals joined by `, `:
/// the literals in order, each one after the first preceded by exactly one
/// separator and the first by none; each literal is the id in decimal, the
/// name in single quotes and the rendered `x`, in parentheses.
pub proof fn lemma_row_list_joined(rows: Seq<RowLiteral>)
    ensures
        row_list_text(rows) == row_list_pieces(rows).flatten(),
        forall|r: RowLiteral|
            #[trigger] row_literal_text(r) == seq!['('] + int_decimal(r.id as int) + seq![
                ',',
                ' ',
                '\'',
            ] + r.name@ + seq!['\'', ',', ' '] + r.x_text@ + seq![')'],
        bulk_insert_text(rows) == "INSERT INTO bench.t (id, name, x) VALUES "@
            + row_list_pieces(rows).flatten() + ";"@,
    decreases rows.len(),
{
    reveal_strlit(", ");
    reveal_strlit("(");
    reveal_strlit(", '");
    reveal_strlit("', ");
    reveal_strlit(")");
    assert(", "@ =~= seq![',', ' ']);
    assert forall|r: RowLiteral|
        #[trigger] row_literal_text(r) == seq!['('] + int_decimal(r.id as int) + seq![
            ',',
            ' ',
            '\'',
        ] + r.name@ + seq!['\'', ',', ' '] + r.x_text@ + seq![')'] by {
        assert("("@ =~= seq!['(']);
        assert(", '"@ =~= seq![',', ' ', '\'']);
        assert("', "@ =~= seq!['\'', ',', ' ']);
        assert(")"@ =~= seq![')']);
    }
    let pieces = row_list_pieces(rows);
    if rows.len() == 0 {
        assert(pieces =~= Seq::<Seq<char>>::empty());
    } else if rows.len() == 1 {
        assert(pieces =~= Seq::<Seq<char>>::empty().push(row_literal_text(rows[0])));
        Seq::<Seq<char>>::empty().lemma_flatten_push(row_literal_text(rows[0]));
        assert(pieces.flatten() =~= row_literal_text(rows[0]));
    } else {
        let init = rows.drop_last();
        lemma_row_list_joined(init);
        assert(pieces =~= row_list_pieces(init).push(", "@ + row_literal_text(rows.last())));
        row_list_pieces(init).lemma_flatten_push(", "@ + row_literal_text(rows.last()));
        assert(row_list_text(rows) =~= pieces.flatten());
    }
    reveal_strlit("INSERT INTO ");
    reveal_strlit(" (id, name, x) VALUES ");
    reveal_strlit("INSERT INTO bench.t (id, name, x) VALUES ");
    reveal_strlit("bench");
    reveal_strlit("t");
    reveal_strlit(".");
    reveal_strlit("bench.t");
    assert(qualified(TBL@) =~= "bench.t"@);
    assert("INSERT INTO "@ + qualified(TBL@) + " (id, name, x) VALUES "@
        =~= "INSERT INTO bench.t (id, name, x) VALUES "@);
}

} // verus!
