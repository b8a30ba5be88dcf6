//! The JSON the relay reads and writes: flat objects whose members are texts
//! or lists of texts. `serde_json` does the lexical work; which members a
//! record needs, and how a record is laid out, is decided here.

use super::text::{entries_view, entry, find_entry, texts};
use crate::error::OAuthError;
use serde_json::value::RawValue;
use std::collections::BTreeMap;
use vstd::prelude::*;

verus! {

/// The JSON string literal that `serde_json` writes for `text`, quotes and
/// escapes included.
pub uninterp spec fn json_literal(text: Seq<char>) -> Seq<char>;

/// The members of the JSON object that `serde_json` reads from `document`,
/// each as its name and the JSON text of its value; `None` when it reads no
/// object from `document`.
pub uninterp spec fn json_members(document: Seq<char>) -> Option<Seq<(Seq<char>, Seq<char>)>>;

/// The text that `serde_json` reads from the JSON string `value`; `None`
/// when it reads no string from `value`.
pub uninterp spec fn json_text(value: Seq<char>) -> Option<Seq<char>>;

/// The texts that `serde_json` reads from the JSON array `value`; `None`
/// when it reads no array of strings from `value`.
pub uninterp spec fn json_texts(value: Seq<char>) -> Option<Seq<Seq<char>>>;

/// The text of the member called `name`: present when there is such a member
/// and its value is a JSON string.
pub open spec fn member_text(members: Seq<(Seq<char>, Seq<char>)>, name: Seq<char>) -> Option<
    Seq<char>,
> {
    match entry(members, name) {
        Some(value) => json_text(value),
        None => None,
    }
}

/// The texts of the member called `name`: present when there is such a member
/// and its value is a JSON array of strings.
pub open spec fn member_texts(members: Seq<(Seq<char>, Seq<char>)>, name: Seq<char>) -> Option<
    Seq<Seq<char>>,
> {
    match entry(members, name) {
        Some(value) => json_texts(value),
        None => None,
    }
}

/// Writes `text` as a JSON string with `serde_json::to_string`.
///
/// Trusted: the call succeeds on every text, and its result is the literal
/// named `json_literal`. Writing a string can only fail where the writer
/// does, and `to_string` writes into a vector, which never does.
#[verifier::external_body]
fn quote(text: &str) -> (res: Result<String, serde_json::Error>)
    ensures
        res is Ok,
        res matches Ok(literal) ==> literal@ == json_literal(text@),
{
    serde_json::to_string(text)
}

/// Reads `document` as one JSON object with `serde_json::from_str`, keeping
/// the JSON text of every member's value.
///
/// Trusted: whether the call succeeds, and what it hands out, depends on
/// `document` alone; a result is the members named `json_members`. They come
/// in the order of their names, and of members with the same name the last
/// one is kept.
#[verifier::external_body]
fn parse_members(document: &str) -> (res: Result<
    Vec<(String, String)>,
    serde_json::Error,
>)
    ensures
        match res {
            Ok(members) => json_members(document@) == Some(entries_view(members@)),
            Err(_) => json_members(document@) is None,
        },
{
    let members: BTreeMap<String, Box<RawValue>> = serde_json::from_str(document)?;
    Ok(members.into_iter().map(|(name, value)| (name, value.get().to_string())).collect())
}

/// Reads `value` as one JSON string with `serde_json::from_str`.
///
/// Trusted: whether the call succeeds, and what it hands out, depends on
/// `value` alone; a result is the text named `json_text`.
#[verifier::external_body]
fn parse_text(value: &str) -> (res: Result<String, serde_json::Error>)
    ensures
        match res {
            Ok(text) => json_text(value@) == Some(text@),
            Err(_) => json_text(value@) is None,
        },
{
    serde_json::from_str::<String>(value)
}

/// Reads `value` as one JSON array of strings with `serde_json::from_str`.
///
/// Trusted: whether the call succeeds, and what it hands out, depends on
/// `value` alone; a result is the texts named `json_texts`.
#[verifier::external_body]
fn parse_texts(value: &str) -> (res: Result<Vec<String>, serde_json::Error>)
    ensures
        match res {
            Ok(items) => json_texts(value@) == Some(texts(items@)),
            Err(_) => json_texts(value@) is None,
        },
{
    serde_json::from_str::<Vec<String>>(value)
}

/// Makes the error that `serde` raises for a record that lacks the member
/// `name`, with `serde::de::Error::missing_field`. Nothing is claimed of it.
#[verifier::external_body]
fn missing_field(name: &'static str) -> (err: serde_json::Error) {
    <serde_json::Error as serde::de::Error>::missing_field(name)
}

/// The JSON string literal of `text`. Every text has one, so this succeeds
/// on every input.
pub fn literal(text: &str) -> (res: Result<String, OAuthError>)
    ensures
        res matches Ok(quoted) && quoted@ == json_literal(text@),
{
    match quote(text) {
        Ok(quoted) => Ok(quoted),
        Err(err) => Err(OAuthError::JSONError(err)),
    }
}

/// Reads the members of the JSON object that `document` holds.
///
/// Succeeds exactly when `document` holds one; every failure is a JSON error.
pub fn read_members(document: &str) -> (res: Result<Vec<(String, String)>, OAuthError>)
    ensures
        match res {
            Ok(members) => json_members(document@) == Some(entries_view(members@)),
            Err(err) => err is JSONError && json_members(document@) is None,
        },
{
    match parse_members(document) {
        Ok(members) => Ok(members),
        Err(err) => Err(OAuthError::JSONError(err)),
    }
}

/// Reads the member called `name` as a text.
///
/// Succeeds exactly when the member exists and its value is a JSON string;
/// every failure is a JSON error.
pub fn text_member(members: &Vec<(String, String)>, name: &'static str) -> (res: Result<
    String,
    OAuthError,
>)
    ensures
        match res {
            Ok(text) => member_text(entries_view(members@), name@) == Some(text@),
            Err(err) => err is JSONError && member_text(entries_view(members@), name@) is None,
        },
{
    match find_entry(members, name) {
        Some(value) => match parse_text(value) {
            Ok(text) => Ok(text),
            Err(err) => Err(OAuthError::JSONError(err)),
        },
        None => Err(OAuthError::JSONError(missing_field(name))),
    }
}

/// Reads the member called `name` as a list of texts.
///
/// Succeeds exactly when the member exists and its value is a JSON array of
/// strings; every failure is a JSON error.
pub fn texts_member(members: &Vec<(String, String)>, name: &'static str) -> (res: Result<
    Vec<String>,
    OAuthError,
>)
    ensures
        match res {
            Ok(items) => member_texts(entries_view(members@), name@) == Some(texts(items@)),
            Err(err) => err is JSONError && member_texts(entries_view(members@), name@) is None,
        },
{
    match find_entry(members, name) {
        Some(value) => match parse_texts(value) {
            Ok(items) => Ok(items),
            Err(err) => Err(OAuthError::JSONError(err)),
        },
        None => Err(OAuthError::JSONError(missing_field(name))),
    }
}

} // verus!
