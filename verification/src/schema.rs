//! The fixed sixteen-column schema of the SQL execution log.
//!
//! Both the reader and the writer of the conversion are built from this one
//! ordered field list; it is stated column by column, so a mismatch between
//! the parsed input and the declared schema can only surface as an error,
//! never be coerced silently.

use vstd::prelude::*;

verus! {

/// The semantic type of a column.
#[derive(Clone, Copy, PartialEq, Eq, Structural, Debug)]
pub enum ColumnType {
    /// Arbitrary text.
    Utf8,
    /// A 32-bit signed integer.
    Int32,
    /// A timestamp with microsecond resolution and no time zone.
    TimestampMicros,
}

/// One column descriptor: a name, a semantic type, and a nullability flag.
#[derive(Clone, Debug)]
pub struct ColumnSpec {
    pub name: String,
    pub ty: ColumnType,
    pub nullable: bool,
}

/// The number of columns in the schema.
pub open spec fn schema_len() -> int {
    16
}

/// The name of column `i`.
pub open spec fn column_name(i: int) -> Seq<char> {
    if i == 0 {
        "conn_hash"@
    } else if i == 1 {
        "stmt_id"@
    } else if i == 2 {
        "exec_id"@
    } else if i == 3 {
        "exec_time"@
    } else if i == 4 {
        "sql_type"@
    } else if i == 5 {
        "exe_status"@
    } else if i == 6 {
        "db_ip"@
    } else if i == 7 {
        "client_ip"@
    } else if i == 8 {
        "client_host"@
    } else if i == 9 {
        "app_name"@
    } else if i == 10 {
        "db_user"@
    } else if i == 11 {
        "sql_hash"@
    } else if i == 12 {
        "from_tbs"@
    } else if i == 13 {
        "select_cols"@
    } else if i == 14 {
        "sql_stmt"@
    } else {
        "stmt_bind_vars"@
    }
}

/// The type of column `i`: the two statement counters are 32-bit integers,
/// the execution time is a microsecond timestamp, everything else is text.
pub open spec fn column_type(i: int) -> ColumnType {
    if i == 1 || i == 2 {
        ColumnType::Int32
    } else if i == 3 {
        ColumnType::TimestampMicros
    } else {
        ColumnType::Utf8
    }
}

/// Whether column `i` accepts null: only the first three columns
/// (`conn_hash`, `stmt_id`, `exec_id`) are required.
pub open spec fn column_nullable(i: int) -> bool {
    i >= 3
}

/// A column list that matches the declared schema, column by column.
pub open spec fn wf_schema(cols: Seq<ColumnSpec>) -> bool {
    &&& cols.len() == schema_len()
    &&& forall|i: int|
        0 <= i < schema_len() ==> {
            &&& (#[trigger] cols[i]).name@ == column_name(i)
            &&& cols[i].ty == column_type(i)
            &&& cols[i].nullable == column_nullable(i)
        }
}

/// Builds the one schema of the pipeline: the fixed ordered field list that
/// the reader and the writer share.
pub fn schema_columns() -> (r: Vec<ColumnSpec>)
    ensures
        wf_schema(r@),
{
    let mut v: Vec<ColumnSpec> = Vec::new();
    v.push(ColumnSpec { name: String::from_str("conn_hash"), ty: ColumnType::Utf8, nullable: false });
    v.push(ColumnSpec { name: String::from_str("stmt_id"), ty: ColumnType::Int32, nullable: false });
    v.push(ColumnSpec { name: String::from_str("exec_id"), ty: ColumnType::Int32, nullable: false });
    v.push(
        ColumnSpec {
            name: String::from_str("exec_time"),
            ty: ColumnType::TimestampMicros,
            nullable: true,
        },
    );
    v.push(ColumnSpec { name: String::from_str("sql_type"), ty: ColumnType::Utf8, nullable: true });
    v.push(ColumnSpec { name: String::from_str("exe_status"), ty: ColumnType::Utf8, nullable: true });
    v.push(ColumnSpec { name: String::from_str("db_ip"), ty: ColumnType::Utf8, nullable: true });
    v.push(ColumnSpec { name: String::from_str("client_ip"), ty: ColumnType::Utf8, nullable: true });
    v.push(ColumnSpec { name: String::from_str("client_host"), ty: ColumnType::Utf8, nullable: true });
    v.push(ColumnSpec { name: String::from_str("app_name"), ty: ColumnType::Utf8, nullable: true });
    v.push(ColumnSpec { name: String::from_str("db_user"), ty: ColumnType::Utf8, nullable: true });
    v.push(ColumnSpec { name: String::from_str("sql_hash"), ty: ColumnType::Utf8, nullable: true });
    v.push(ColumnSpec { name: String::from_str("from_tbs"), ty: ColumnType::Utf8, nullable: true });
    v.push(ColumnSpec { name: String::from_str("select_cols"), ty: ColumnType::Utf8, nullable: true });
    v.push(ColumnSpec { name: String::from_str("sql_stmt"), ty: ColumnType::Utf8, nullable: true });
    v.push(
        ColumnSpec {
            name: String::from_str("stmt_bind_vars"),
            ty: ColumnType::Utf8,
            nullable: true,
        },
    );
    v
}

/// The sixteen column names are pairwise distinct: looking a column up by
/// name is unambiguous.
#[verifier::rlimit(60)]
pub proof fn lemma_column_names_unique()
    ensures
        forall|i: int, j: int|
            0 <= i < schema_len() && 0 <= j < schema_len() && i != j ==> column_name(i)
                != column_name(j),
{
    reveal_strlit("conn_hash");
    reveal_strlit("stmt_id");
    reveal_strlit("exec_id");
    reveal_strlit("exec_time");
    reveal_strlit("sql_type");
    reveal_strlit("exe_status");
    reveal_strlit("db_ip");
    reveal_strlit("client_ip");
    reveal_strlit("client_host");
    reveal_strlit("app_name");
    reveal_strlit("db_user");
    reveal_strlit("sql_hash");
    reveal_strlit("from_tbs");
    reveal_strlit("select_cols");
    reveal_strlit("sql_stmt");
    reveal_strlit("stmt_bind_vars");
    assert forall|i: int, j: int|
        0 <= i < schema_len() && 0 <= j < schema_len() && i != j implies column_name(i)
        != column_name(j) by {
        let a = column_name(i);
        let b = column_name(j);
        if a.len() == b.len() {
            assert(a != b) by {
                if a == b {
                    assert(a[0] == b[0]);
                    assert(a[4] == b[4]);
                    assert(a[a.len() - 1] == b[b.len() - 1]);
                    assert(a[1] == b[1]);
                    assert(a[2] == b[2]);
                    assert(a[3] == b[3]);
                }
            }
        }
    }
}

} // verus!
