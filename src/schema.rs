use vstd::prelude::*;
use vstd::string::StringExecFns;
use crate::text::{append_decimal, decimal, join_with_commas, joined, lemma_views_push, views};

verus! {

/// A column of the observation table.
#[derive(Clone, Copy, Debug, PartialEq, Eq, Structural)]
pub enum Column {
    Id,
    Name,
    Height,
    Hash,
    Time,
    LatestUrl,
    PreviousHash,
    PreviousUrl,
    PeerCount,
    UnconfirmedCount,
    HighFeePerKb,
    MediumFeePerKb,
    LowFeePerKb,
    LastForkHeight,
    LastForkHash,
    Price,
    Volume24h,
    CapturedAt,
}

/// The column's name in the table.
pub open spec fn column_name(c: Column) -> Seq<char> {
    match c {
        Column::Id => "id"@,
        Column::Name => "name"@,
        Column::Height => "height"@,
        Column::Hash => "hash"@,
        Column::Time => "time"@,
        Column::LatestUrl => "latest_url"@,
        Column::PreviousHash => "previous_hash"@,
        Column::PreviousUrl => "previous_url"@,
        Column::PeerCount => "peer_count"@,
        Column::UnconfirmedCount => "unconfirmed_count"@,
        Column::HighFeePerKb => "high_fee_per_kb"@,
        Column::MediumFeePerKb => "medium_fee_per_kb"@,
        Column::LowFeePerKb => "low_fee_per_kb"@,
        Column::LastForkHeight => "last_fork_height"@,
        Column::LastForkHash => "last_fork_hash"@,
        Column::Price => "price"@,
        Column::Volume24h => "volume_24h"@,
        Column::CapturedAt => "timestamp"@,
    }
}

/// The column's SQL type.
pub open spec fn column_type(c: Column) -> Seq<char> {
    match c {
        Column::Id => "SERIAL"@,
        Column::Time | Column::CapturedAt => "TIMESTAMPTZ"@,
        Column::Height | Column::PeerCount | Column::UnconfirmedCount | Column::HighFeePerKb
        | Column::MediumFeePerKb | Column::LowFeePerKb | Column::LastForkHeight => "BIGINT"@,
        Column::Price | Column::Volume24h => "DOUBLE PRECISION"@,
        _ => "TEXT"@,
    }
}

/// The constraint that follows the type in the table's definition: identity,
/// server default, nothing for the nullable price and volume, and NOT NULL
/// for every snapshot field.
pub open spec fn column_constraint(c: Column) -> Seq<char> {
    match c {
        Column::Id => " PRIMARY KEY"@,
        Column::CapturedAt => " DEFAULT CURRENT_TIMESTAMP"@,
        Column::Price | Column::Volume24h => ""@,
        _ => " NOT NULL"@,
    }
}

/// The column's clause in CREATE TABLE.
pub open spec fn column_definition(c: Column) -> Seq<char> {
    column_name(c) + " "@ + column_type(c) + column_constraint(c)
}

impl Column {
    pub fn name(self) -> (r: &'static str)
        ensures
            r@ == column_name(self),
    {
        match self {
            Column::Id => "id",
            Column::Name => "name",
            Column::Height => "height",
            Column::Hash => "hash",
            Column::Time => "time",
            Column::LatestUrl => "latest_url",
            Column::PreviousHash => "previous_hash",
            Column::PreviousUrl => "previous_url",
            Column::PeerCount => "peer_count",
            Column::UnconfirmedCount => "unconfirmed_count",
            Column::HighFeePerKb => "high_fee_per_kb",
            Column::MediumFeePerKb => "medium_fee_per_kb",
            Column::LowFeePerKb => "low_fee_per_kb",
            Column::LastForkHeight => "last_fork_height",
            Column::LastForkHash => "last_fork_hash",
            Column::Price => "price",
            Column::Volume24h => "volume_24h",
            Column::CapturedAt => "timestamp",
        }
    }

    pub fn sql_type(self) -> (r: &'static str)
        ensures
            r@ == column_type(self),
    {
        match self {
            Column::Id => "SERIAL",
            Column::Time | Column::CapturedAt => "TIMESTAMPTZ",
            Column::Height | Column::PeerCount | Column::UnconfirmedCount | Column::HighFeePerKb
            | Column::MediumFeePerKb | Column::LowFeePerKb | Column::LastForkHeight => "BIGINT",
            Column::Price | Column::Volume24h => "DOUBLE PRECISION",
            _ => "TEXT",
        }
    }

    pub fn constraint(self) -> (r: &'static str)
        ensures
            r@ == column_constraint(self),
    {
        match self {
            Column::Id => " PRIMARY KEY",
            Column::CapturedAt => " DEFAULT CURRENT_TIMESTAMP",
            Column::Price | Column::Volume24h => "",
            _ => " NOT NULL",
        }
    }

    /// The column's clause in CREATE TABLE.
    pub fn definition(self) -> (r: String)
        ensures
            r@ == column_definition(self),
    {
        String::from_str(self.name()).concat(" ").concat(self.sql_type()).concat(self.constraint())
    }
}


/// The name of the observation table.
pub open spec fn table_name() -> Seq<char> {
    "bitcoin_details"@
}

/// Every column of the current schema, in definition order.
pub open spec fn table_columns_spec() -> Seq<Column> {
    seq![
        Column::Id,
        Column::Name,
        Column::Height,
        Column::Hash,
        Column::Time,
        Column::LatestUrl,
        Column::PreviousHash,
        Column::PreviousUrl,
        Column::PeerCount,
        Column::UnconfirmedCount,
        Column::HighFeePerKb,
        Column::MediumFeePerKb,
        Column::LowFeePerKb,
        Column::LastForkHeight,
        Column::LastForkHash,
        Column::Price,
        Column::Volume24h,
        Column::CapturedAt,
    ]
}

/// The columns that came after the table's first definition, oldest first:
/// an installation made before them lacks them until migrated.
pub open spec fn migrations_spec() -> Seq<Column> {
    seq![Column::LatestUrl, Column::PreviousUrl, Column::Name]
}

/// The columns that an insert supplies, in parameter order: all but the
/// identity and the capture time, which the server assigns.
pub open spec fn insert_columns_spec() -> Seq<Column> {
    table_columns_spec().subrange(1, 17)
}

pub fn table_columns() -> (r: Vec<Column>)
    ensures
        r@ == table_columns_spec(),
{
    let r = vec![
        Column::Id,
        Column::Name,
        Column::Height,
        Column::Hash,
        Column::Time,
        Column::LatestUrl,
        Column::PreviousHash,
        Column::PreviousUrl,
        Column::PeerCount,
        Column::UnconfirmedCount,
        Column::HighFeePerKb,
        Column::MediumFeePerKb,
        Column::LowFeePerKb,
        Column::LastForkHeight,
        Column::LastForkHash,
        Column::Price,
        Column::Volume24h,
        Column::CapturedAt,
    ];
    assert(r@ =~= table_columns_spec());
    r
}

pub fn migrations() -> (r: Vec<Column>)
    ensures
        r@ == migrations_spec(),
{
    let r = vec![Column::LatestUrl, Column::PreviousUrl, Column::Name];
    assert(r@ =~= migrations_spec());
    r
}

pub fn insert_columns() -> (r: Vec<Column>)
    ensures
        r@ == insert_columns_spec(),
{
    let all = table_columns();
    let mut r: Vec<Column> = Vec::new();
    let mut i: usize = 1;
    while i < 17
        invariant
            1 <= i <= 17,
            all@ == table_columns_spec(),
            r@ =~= table_columns_spec().subrange(1, i as int),
        decreases 17 - i,
    {
        r.push(all[i]);
        i += 1;
    }
    r
}

/// One statement of the schema plan. Both kinds are conditional, so either
/// may meet a table that already has what it adds.
#[derive(Clone, Copy, Debug, PartialEq, Eq, Structural)]
pub enum SchemaStatement {
    /// Create the table with every current column, unless it exists.
    CreateTable,
    /// Add one column with its bare type, unless the table has it.
    AddColumn(Column),
}

/// The statements that bring any installation to the current schema: the
/// table's creation, then one step per later column, oldest first.
pub open spec fn schema_plan_spec() -> Seq<SchemaStatement> {
    seq![SchemaStatement::CreateTable] + migrations_spec().map_values(
        |c: Column| SchemaStatement::AddColumn(c),
    )
}

pub fn schema_plan() -> (r: Vec<SchemaStatement>)
    ensures
        r@ == schema_plan_spec(),
{
    let steps = migrations();
    let mut r: Vec<SchemaStatement> = vec![SchemaStatement::CreateTable];
    let mut i: usize = 0;
    while i < steps.len()
        invariant
            i <= steps.len(),
            steps@ == migrations_spec(),
            r@ =~= seq![SchemaStatement::CreateTable] + steps@.take(i as int).map_values(
                |c: Column| SchemaStatement::AddColumn(c),
            ),
        decreases steps.len() - i,
    {
        r.push(SchemaStatement::AddColumn(steps[i]));
        i += 1;
    }
    assert(steps@.take(i as int) =~= steps@);
    r
}

/// CREATE TABLE for the given columns.
pub open spec fn create_table_text(cols: Seq<Column>) -> Seq<char> {
    "CREATE TABLE IF NOT EXISTS "@ + table_name() + " ("@ + joined(
        cols.map_values(|c: Column| column_definition(c)),
    ) + ")"@
}

/// ALTER TABLE that adds a column unless it is there.
pub open spec fn add_column_text(c: Column) -> Seq<char> {
    "ALTER TABLE "@ + table_name() + " ADD COLUMN IF NOT EXISTS "@ + column_name(c) + " "@
        + column_type(c)
}

/// The SQL text of a statement of the plan.
pub open spec fn statement_text(s: SchemaStatement) -> Seq<char> {
    match s {
        SchemaStatement::CreateTable => create_table_text(table_columns_spec()),
        SchemaStatement::AddColumn(c) => add_column_text(c),
    }
}

/// The numbered parameter at position `i`, counted from zero.
pub open spec fn placeholder(i: int) -> Seq<char> {
    "$"@ + decimal((i + 1) as nat)
}

/// INSERT of one row that supplies the given columns as numbered parameters.
pub open spec fn insert_text(cols: Seq<Column>) -> Seq<char> {
    "INSERT INTO "@ + table_name() + " ("@ + joined(cols.map_values(|c: Column| column_name(c)))
        + ") VALUES ("@ + joined(Seq::new(cols.len(), |i: int| placeholder(i))) + ")"@
}

fn table_name_text() -> (r: &'static str)
    ensures
        r@ == table_name(),
{
    "bitcoin_details"
}

impl SchemaStatement {
    /// The statement as SQL text.
    pub fn sql(self) -> (r: String)
        ensures
            r@ == statement_text(self),
    {
        match self {
            SchemaStatement::CreateTable => {
                let cols = table_columns();
                let mut defs: Vec<String> = Vec::new();
                let mut i: usize = 0;
                while i < cols.len()
                    invariant
                        i <= cols.len(),
                        cols@ == table_columns_spec(),
                        views(defs@) =~= cols@.take(i as int).map_values(
                            |c: Column| column_definition(c),
                        ),
                    decreases cols.len() - i,
                {
                    let d = cols[i].definition();
                    proof {
                        lemma_views_push(defs@, d);
                        assert(cols@.take(i + 1).map_values(|c: Column| column_definition(c))
                            =~= cols@.take(i as int).map_values(|c: Column| column_definition(c)).push(
                            column_definition(cols@[i as int]),
                        ));
                    }
                    defs.push(d);
                    i += 1;
                }
                assert(cols@.take(i as int) =~= cols@);
                String::from_str("CREATE TABLE IF NOT EXISTS ").concat(table_name_text()).concat(
                    " (",
                ).concat(join_with_commas(&defs).as_str()).concat(")")
            },
            SchemaStatement::AddColumn(c) => {
                String::from_str("ALTER TABLE ").concat(table_name_text()).concat(
                    " ADD COLUMN IF NOT EXISTS ",
                ).concat(c.name()).concat(" ").concat(c.sql_type())
            },
        }
    }
}

/// The parameterised INSERT that appends one observation.
pub fn insert_sql() -> (r: String)
    ensures
        r@ == insert_text(insert_columns_spec()),
{
    let cols = insert_columns();
    let mut names: Vec<String> = Vec::new();
    let mut marks: Vec<String> = Vec::new();
    let mut i: usize = 0;
    while i < cols.len()
        invariant
            i <= cols.len(),
            cols@ == insert_columns_spec(),
            views(names@) =~= cols@.take(i as int).map_values(|c: Column| column_name(c)),
            views(marks@) =~= Seq::new(i as nat, |k: int| placeholder(k)),
        decreases cols.len() - i,
    {
        let name = String::from_str(cols[i].name());
        let mut mark = String::from_str("$");
        append_decimal(&mut mark, i as u64 + 1);
        proof {
            lemma_views_push(names@, name);
            lemma_views_push(marks@, mark);
            assert(cols@.take(i + 1).map_values(|c: Column| column_name(c)) =~= cols@.take(
                i as int,
            ).map_values(|c: Column| column_name(c)).push(column_name(cols@[i as int])));
            assert(Seq::new((i + 1) as nat, |k: int| placeholder(k)) =~= Seq::new(
                i as nat,
                |k: int| placeholder(k),
            ).push(placeholder(i as int)));
        }
        names.push(name);
        marks.push(mark);
        i += 1;
    }
    assert(cols@.take(i as int) =~= cols@);
    String::from_str("INSERT INTO ").concat(table_name_text()).concat(" (").concat(
        join_with_commas(&names).as_str(),
    ).concat(") VALUES (").concat(join_with_commas(&marks).as_str()).concat(")")
}


/// What the database holds of the table: `None` where it does not exist,
/// else its columns in the order they were added.
pub type TableModel = Option<Seq<Column>>;

/// Whether the statement fails on that table: adding a column needs the
/// table. A column that is already there is no failure, since every step is
/// conditional.
pub open spec fn statement_fails(t: TableModel, s: SchemaStatement) -> bool {
    s matches SchemaStatement::AddColumn(_) && t is None
}

/// The table after a statement that does not fail.
pub open spec fn apply_statement(t: TableModel, s: SchemaStatement) -> TableModel {
    match s {
        SchemaStatement::CreateTable => match t {
            None => Some(table_columns_spec()),
            Some(cols) => Some(cols),
        },
        SchemaStatement::AddColumn(c) => match t {
            None => None,
            Some(cols) => if cols.contains(c) {
                Some(cols)
            } else {
                Some(cols.push(c))
            },
        },
    }
}

/// Whether some statement of the list fails, run in order from `t`.
pub open spec fn some_statement_fails(t: TableModel, steps: Seq<SchemaStatement>) -> bool
    decreases steps.len(),
{
    if steps.len() == 0 {
        false
    } else {
        statement_fails(t, steps[0]) || some_statement_fails(
            apply_statement(t, steps[0]),
            steps.drop_first(),
        )
    }
}

/// The table after running the statements in order.
pub open spec fn apply_statements(t: TableModel, steps: Seq<SchemaStatement>) -> TableModel
    decreases steps.len(),
{
    if steps.len() == 0 {
        t
    } else {
        apply_statements(apply_statement(t, steps[0]), steps.drop_first())
    }
}

/// The table after ensuring the schema `n` times.
pub open spec fn ensure_schema_times(t: TableModel, n: nat) -> TableModel
    decreases n,
{
    if n == 0 {
        t
    } else {
        apply_statements(ensure_schema_times(t, (n - 1) as nat), schema_plan_spec())
    }
}

/// The additive steps of the plan, each its own column's.
pub open spec fn adds_of(cols: Seq<Column>) -> Seq<SchemaStatement> {
    cols.map_values(|c: Column| SchemaStatement::AddColumn(c))
}

proof fn lemma_plan_shape()
    ensures
        schema_plan_spec()[0] == SchemaStatement::CreateTable,
        schema_plan_spec().drop_first() == adds_of(migrations_spec()),
        schema_plan_spec().len() > 0,
{
    assert(schema_plan_spec().drop_first() =~= adds_of(migrations_spec()));
}

/// Running additive steps on an existing table fails nowhere, keeps every
/// column, and leaves each added column present.
proof fn lemma_adds_grow(cols: Seq<Column>, adds: Seq<Column>)
    ensures
        !some_statement_fails(Some(cols), adds_of(adds)),
        apply_statements(Some(cols), adds_of(adds)) is Some,
        forall|c: Column| cols.contains(c) ==> apply_statements(Some(cols), adds_of(adds))->0.contains(c),
        forall|c: Column| adds.contains(c) ==> apply_statements(Some(cols), adds_of(adds))->0.contains(c),
    decreases adds.len(),
{
    if adds.len() > 0 {
        let next = apply_statement(Some(cols), SchemaStatement::AddColumn(adds[0]));
        let cols1 = next->0;
        assert(adds_of(adds).drop_first() =~= adds_of(adds.drop_first()));
        assert(adds_of(adds)[0] == SchemaStatement::AddColumn(adds[0]));
        lemma_adds_grow(cols1, adds.drop_first());
        assert(apply_statements(Some(cols), adds_of(adds)) == apply_statements(
            Some(cols1),
            adds_of(adds.drop_first()),
        ));
        assert forall|c: Column| cols.contains(c) implies cols1.contains(c) by {
            if !cols.contains(adds[0]) {
                let k = choose|k: int| 0 <= k < cols.len() && cols[k] == c;
                assert(cols1[k] == c);
            }
        }
        assert(cols1.contains(adds[0])) by {
            if !cols.contains(adds[0]) {
                assert(cols1[cols.len() as int] == adds[0]);
            }
        }
        assert forall|c: Column| adds.contains(c) implies apply_statements(
            Some(cols),
            adds_of(adds),
        )->0.contains(c) by {
            if c != adds[0] {
                let k = choose|k: int| 0 <= k < adds.len() && adds[k] == c;
                assert(k > 0);
                assert(adds.drop_first()[k - 1] == c);
                assert(adds.drop_first().contains(c));
            } else {
                assert(cols1.contains(c));
            }
        }
    }
}

/// Additive steps whose columns are all there change nothing.
proof fn lemma_adds_present(cols: Seq<Column>, adds: Seq<Column>)
    requires
        forall|c: Column| adds.contains(c) ==> cols.contains(c),
    ensures
        apply_statements(Some(cols), adds_of(adds)) == Some(cols),
    decreases adds.len(),
{
    if adds.len() > 0 {
        assert(adds_of(adds).drop_first() =~= adds_of(adds.drop_first()));
        assert(adds_of(adds)[0] == SchemaStatement::AddColumn(adds[0]));
        assert(adds.contains(adds[0]));
        assert forall|c: Column| adds.drop_first().contains(c) implies cols.contains(c) by {
            let k = choose|k: int| 0 <= k < adds.drop_first().len() && adds.drop_first()[k] == c;
            assert(adds[k + 1] == c);
        }
        lemma_adds_present(cols, adds.drop_first());
    }
}

/// Ensuring the schema once, from any state of the table (absent, current,
/// or made by an older version), fails at no step, keeps every column that
/// was there, and leaves every current column's migration applied; on an
/// absent table it gives exactly the current schema.
pub proof fn lemma_ensure_schema_once(t: TableModel)
    ensures
        !some_statement_fails(t, schema_plan_spec()),
        apply_statements(t, schema_plan_spec()) is Some,
        forall|c: Column| migrations_spec().contains(c) ==> apply_statements(t, schema_plan_spec())->0.contains(c),
        t matches Some(cols) ==> forall|c: Column| cols.contains(c) ==> apply_statements(t, schema_plan_spec())->0.contains(c),
        t is None ==> apply_statements(t, schema_plan_spec()) == Some(table_columns_spec()),
{
    lemma_plan_shape();
    let p = schema_plan_spec();
    let created = apply_statement(t, p[0])->0;
    lemma_adds_grow(created, migrations_spec());
    assert(apply_statements(t, p) == apply_statements(Some(created), adds_of(migrations_spec())));
    assert(!statement_fails(t, p[0]));
    if t is None {
        assert(table_columns_spec()[5] == Column::LatestUrl);
        assert(table_columns_spec()[7] == Column::PreviousUrl);
        assert(table_columns_spec()[1] == Column::Name);
        assert forall|c: Column| migrations_spec().contains(c) implies table_columns_spec().contains(c) by {
            let k = choose|k: int| 0 <= k < 3 && migrations_spec()[k] == c;
            if k == 0 {
                assert(table_columns_spec()[5] == c);
            } else if k == 1 {
                assert(table_columns_spec()[7] == c);
            } else {
                assert(table_columns_spec()[1] == c);
            }
        }
        lemma_adds_present(table_columns_spec(), migrations_spec());
    }
}

/// Ensuring the schema a second time changes nothing and fails nowhere.
pub proof fn lemma_ensure_schema_idempotent(t: TableModel)
    ensures
        apply_statements(apply_statements(t, schema_plan_spec()), schema_plan_spec())
            == apply_statements(t, schema_plan_spec()),
        !some_statement_fails(apply_statements(t, schema_plan_spec()), schema_plan_spec()),
{
    lemma_ensure_schema_once(t);
    lemma_plan_shape();
    let once = apply_statements(t, schema_plan_spec());
    let cols = once->0;
    lemma_ensure_schema_once(once);
    assert(apply_statement(once, schema_plan_spec()[0]) == once);
    lemma_adds_present(cols, migrations_spec());
}

/// Ensuring the schema `n >= 1` times, from any state of the table, leaves
/// the same table as ensuring it once, and no run has a failing step.
pub proof fn lemma_ensure_schema_repeated(t: TableModel, n: nat)
    requires
        n >= 1,
    ensures
        ensure_schema_times(t, n) == apply_statements(t, schema_plan_spec()),
        forall|k: nat| k < n ==> !some_statement_fails(#[trigger] ensure_schema_times(t, k), schema_plan_spec()),
    decreases n,
{
    lemma_ensure_schema_once(t);
    if n == 1 {
        assert(ensure_schema_times(t, 0) == t);
    } else {
        lemma_ensure_schema_repeated(t, (n - 1) as nat);
        lemma_ensure_schema_idempotent(t);
        assert forall|k: nat| k < n implies !some_statement_fails(#[trigger] ensure_schema_times(t, k), schema_plan_spec()) by {
            if k == n - 1 {
                if k == 0 {
                    assert(ensure_schema_times(t, 0) == t);
                }
            }
        }
    }
}

} // verus!
