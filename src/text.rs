//! Character sequences: conversion between strings and character vectors, and splicing.
use vstd::prelude::*;

verus! {

broadcast use vstd::string::group_string_axioms;

/// The characters of `s`, in order.
pub fn chars_of(s: &str) -> (r: Vec<char>)
    ensures
        r@ == s@,
{
    let mut r: Vec<char> = Vec::new();
    for ch in it: s.chars()
        invariant
            r@ == it.seq().take(it.index() as int),
    {
        r.push(ch);
    }
    r
}

/// std's `String::push`: appends the given character to the end of the string.
pub assume_specification[ std::string::String::push ](s: &mut std::string::String, ch: char)
    ensures
        final(s)@ == old(s)@.push(ch),
;

/// The string made of the characters `cs`, in order.
pub fn string_of(cs: &Vec<char>) -> (r: String)
    ensures
        r@ == cs@,
{
    let mut r = String::new();
    let mut i: usize = 0;
    while i < cs.len()
        invariant
            i <= cs.len(),
            r@ == cs@.take(i as int),
        decreases cs.len() - i,
    {
        r.push(cs[i]);
        i = i + 1;
        assert(cs@.take(i as int) =~= cs@.take(i - 1 as int).push(cs@[i - 1]));
    }
    assert(cs@.take(cs.len() as int) =~= cs@);
    r
}

/// Inserts the characters of `s` into `v` in front of position `at`.
pub fn insert_chars(v: &mut Vec<char>, at: usize, s: &str)
    requires
        at <= old(v).len(),
    ensures
        final(v)@ == old(v)@.take(at as int) + s@ + old(v)@.skip(at as int),
{
    let mut rest = v.split_off(at);
    let mut middle = chars_of(s);
    v.append(&mut middle);
    v.append(&mut rest);
}

/// Removes the `n` elements of `v` that start at position `at`.
pub fn remove_range<T>(v: &mut Vec<T>, at: usize, n: usize)
    requires
        at + n <= old(v).len(),
    ensures
        final(v)@ == old(v)@.take(at as int) + old(v)@.skip(at + n),
{
    let mut rest = v.split_off(at + n);
    v.truncate(at);
    v.append(&mut rest);
}

} // verus!
