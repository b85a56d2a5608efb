//! The column mappers of the storage engines that `rbatis` ships mappers for.
//!
//! Each of those mappers is one short rule on the column's name and on the
//! text of the sample. The rule is stated as [`dialect_column_type`] and
//! decided here by verified code, for samples of every kind.

use crate::mapper::ColumnMapper;
use crate::sample::{SampleSpec, SampleValue};
use vstd::prelude::*;

verus! {

/// The storage engines whose column mappers `rbatis` ships.
#[derive(Clone, Copy, Debug, PartialEq, Eq)]
pub enum Dialect {
    Sqlite,
    Mysql,
    Mssql,
    Postgres,
}

/// Whether a column is named like an identifier column: `id`, `*_id` or `id_*`.
pub open spec fn names_an_id(column: Seq<char>) -> bool {
    column == "id"@ || "_id"@.is_suffix_of(column) || "id_"@.is_prefix_of(column)
}

/// The type a dialect gives a text column that declares nothing else.
pub open spec fn plain_text_type(dialect: Dialect) -> Seq<char> {
    match dialect {
        Dialect::Mssql => "NVARCHAR(MAX)"@,
        _ => "TEXT"@,
    }
}

/// The type string a dialect's mapper gives `column` for `sample`.
///
/// A non-empty text sample is itself the type. An empty text sample maps to
/// `VARCHAR(50)` for identifier columns and to the dialect's plain text type
/// otherwise. Every other sample maps to `TEXT`.
pub open spec fn dialect_column_type(
    dialect: Dialect,
    column: Seq<char>,
    sample: SampleSpec,
) -> Seq<char> {
    match sample {
        SampleSpec::Text(declared) => if declared.len() > 0 {
            declared
        } else if names_an_id(column) {
            "VARCHAR(50)"@
        } else {
            plain_text_type(dialect)
        },
        _ => "TEXT"@,
    }
}

/// Decides [`names_an_id`] for a column name.
pub fn is_id_column(column: &str) -> (yes: bool)
    ensures
        yes == names_an_id(column@),
{
    proof {
        reveal_strlit("id");
        reveal_strlit("_id");
        reveal_strlit("id_");
    }
    let len: usize = column.unicode_len();
    if len < 2 {
        false
    } else if len == 2 {
        let yes = column.get_char(0) == 'i' && column.get_char(1) == 'd';
        assert(yes ==> column@ =~= "id"@);
        yes
    } else {
        let ends = column.get_char(len - 3) == '_' && column.get_char(len - 2) == 'i'
            && column.get_char(len - 1) == 'd';
        let starts = column.get_char(0) == 'i' && column.get_char(1) == 'd' && column.get_char(2)
            == '_';
        proof {
            let tail = column@.subrange(len - 3, len as int);
            let head = column@.subrange(0, 3);
            assert(ends <==> tail =~= "_id"@) by {
                assert(tail[0] == column@[len - 3]);
                assert(tail[1] == column@[len - 2]);
                assert(tail[2] == column@[len - 1]);
            }
            assert(starts <==> head =~= "id_"@) by {
                assert(head[0] == column@[0]);
                assert(head[1] == column@[1]);
                assert(head[2] == column@[2]);
            }
        }
        ends || starts
    }
}

impl ColumnMapper for Dialect {
    open spec fn column_type(&self, field: Seq<char>, sample: SampleSpec) -> Seq<char> {
        dialect_column_type(*self, field, sample)
    }

    fn infer_type(&self, field: &str, sample: &SampleValue) -> (ty: String) {
        match sample {
            SampleValue::Text(declared) => {
                if !declared.as_str().is_empty() {
                    declared.clone()
                } else if is_id_column(field) {
                    "VARCHAR(50)".to_owned()
                } else {
                    match self {
                        Dialect::Mssql => "NVARCHAR(MAX)".to_owned(),
                        _ => "TEXT".to_owned(),
                    }
                }
            },
            _ => "TEXT".to_owned(),
        }
    }
}

} // verus!
