//! Constraint strings: a storage type followed by its modifier keywords.

use crate::text::{
    is_whitespace, lemma_clean_is_trimmed, lemma_trimmed_is_clean, lemma_trimmed_start_keeps_tail,
    lemma_trimmed_start_skips_blank, trim, trimmed, trimmed_start,
};
use vstd::prelude::*;

verus! {

/// The modifier keywords of a field, `UNIQUE` before `NOT NULL`, separated
/// by one space.
pub open spec fn modifiers(unique: bool, not_null: bool) -> Seq<char> {
    if unique && not_null {
        "UNIQUE NOT NULL"@
    } else if unique {
        "UNIQUE"@
    } else if not_null {
        "NOT NULL"@
    } else {
        Seq::empty()
    }
}

/// The constraint string of a field: its type and its modifier keywords
/// joined by one space, without leading or trailing whitespace.
pub open spec fn constraint_text(ty: Seq<char>, unique: bool, not_null: bool) -> Seq<char> {
    trimmed(ty + " "@ + modifiers(unique, not_null))
}

/// Builds the modifier keywords of a field.
pub fn modifier_keywords(unique: bool, not_null: bool) -> (keywords: String)
    ensures
        keywords@ == modifiers(unique, not_null),
{
    let mut keywords = String::new();
    if unique {
        keywords.append("UNIQUE");
    }
    if unique && not_null {
        keywords.append(" ");
    }
    if not_null {
        keywords.append("NOT NULL");
    }
    proof {
        reveal_strlit("UNIQUE");
        reveal_strlit(" ");
        reveal_strlit("NOT NULL");
        reveal_strlit("UNIQUE NOT NULL");
        assert(keywords@ =~= modifiers(unique, not_null));
    }
    keywords
}

/// Builds the constraint string of a field from its storage type and flags.
///
/// Without flags the result is the trimmed type. With flags it is the type
/// without its leading whitespace, one space, and the keywords; a type with
/// nothing but whitespace leaves the keywords alone.
pub fn compose_constraints(ty: &str, unique: bool, not_null: bool) -> (out: String)
    ensures
        out@ == constraint_text(ty@, unique, not_null),
        out@ == (if !unique && !not_null {
            trimmed(ty@)
        } else if trimmed_start(ty@).len() == 0 {
            modifiers(unique, not_null)
        } else {
            trimmed_start(ty@) + " "@ + modifiers(unique, not_null)
        }),
{
    proof {
        lemma_constraint_text_shape(ty@, unique, not_null);
    }
    let keywords = modifier_keywords(unique, not_null);
    let mut line = ty.to_owned();
    line.append(" ");
    line.append(keywords.as_str());
    trim(line.as_str())
}

/// The modifier keywords are empty exactly when no flag is set; otherwise
/// they start and end with a letter.
pub proof fn lemma_modifiers_are_clean(unique: bool, not_null: bool)
    ensures
        modifiers(unique, not_null).len() == 0 <==> !unique && !not_null,
        unique || not_null ==> !is_whitespace(modifiers(unique, not_null).first())
            && !is_whitespace(modifiers(unique, not_null).last()),
{
    reveal_strlit("UNIQUE");
    reveal_strlit("NOT NULL");
    reveal_strlit("UNIQUE NOT NULL");
}

/// The constraint string, written out for every type string and every
/// combination of flags.
///
/// Without flags it is the trimmed type. With flags it is the type without
/// its leading whitespace, one space, and the keywords; a type that is
/// empty or all whitespace leaves the keywords alone.
pub proof fn lemma_constraint_text_shape(ty: Seq<char>, unique: bool, not_null: bool)
    ensures
        constraint_text(ty, unique, not_null) == (if !unique && !not_null {
            trimmed(ty)
        } else if trimmed_start(ty).len() == 0 {
            modifiers(unique, not_null)
        } else {
            trimmed_start(ty) + " "@ + modifiers(unique, not_null)
        }),
{
    reveal_strlit(" ");
    lemma_modifiers_are_clean(unique, not_null);
    let keywords = modifiers(unique, not_null);
    let tail = " "@ + keywords;
    let line = ty + " "@ + keywords;
    assert(line =~= ty + tail);
    assert(tail.drop_first() =~= keywords);
    assert(trimmed_start(tail) == trimmed_start(keywords));
    if trimmed_start(ty).len() == 0 {
        lemma_trimmed_start_skips_blank(ty, tail);
    } else {
        lemma_trimmed_start_keeps_tail(ty, tail);
        let kept = trimmed_start(ty) + tail;
        if !unique && !not_null {
            assert(kept.drop_last() =~= trimmed_start(ty));
        } else {
            assert(kept =~= trimmed_start(ty) + " "@ + keywords);
        }
    }
}

/// A constraint string has no leading and no trailing whitespace, whatever
/// the type string and the flags.
pub proof fn lemma_constraint_text_is_clean(ty: Seq<char>, unique: bool, not_null: bool)
    ensures
        constraint_text(ty, unique, not_null).len() > 0 ==> !is_whitespace(
            constraint_text(ty, unique, not_null).first(),
        ) && !is_whitespace(constraint_text(ty, unique, not_null).last()),
{
    lemma_trimmed_is_clean(ty + " "@ + modifiers(unique, not_null));
}

/// A field that is unique and not null: the type, then ` UNIQUE NOT NULL`,
/// with one space between the tokens and nothing after the last.
pub proof fn lemma_unique_not_null_text(ty: Seq<char>)
    requires
        ty.len() > 0,
        !is_whitespace(ty.first()),
    ensures
        constraint_text(ty, true, true) == ty + " UNIQUE NOT NULL"@,
{
    reveal_strlit(" ");
    reveal_strlit("UNIQUE NOT NULL");
    reveal_strlit(" UNIQUE NOT NULL");
    lemma_constraint_text_shape(ty, true, true);
    assert(ty + " "@ + "UNIQUE NOT NULL"@ =~= ty + " UNIQUE NOT NULL"@);
}

/// A field without flags: the constraint string is the trimmed type, and
/// the type itself where that has no outer whitespace.
pub proof fn lemma_unflagged_text(ty: Seq<char>)
    ensures
        constraint_text(ty, false, false) == trimmed(ty),
        ty.len() > 0 && !is_whitespace(ty.first()) && !is_whitespace(ty.last())
            ==> constraint_text(ty, false, false) == ty,
{
    lemma_constraint_text_shape(ty, false, false);
    if ty.len() > 0 && !is_whitespace(ty.first()) && !is_whitespace(ty.last()) {
        lemma_clean_is_trimmed(ty);
    }
}

} // verus!
