//! The argument bag of an invocation: an open-ended list of named values,
//! looked up by name.

use vstd::prelude::*;

verus! {

/// A loosely-typed argument value.  Values the tools never read (objects,
/// arrays, non-integer numbers) are carried as `Other`.
pub enum ArgValue {
    Null,
    Bool(bool),
    Int(i64),
    Text(String),
    Other,
}

/// One named argument.
pub struct ToolArg {
    pub name: String,
    pub value: ArgValue,
}

/// The value of the first argument named `key`, if any.
pub open spec fn lookup_arg(args: Seq<ToolArg>, key: Seq<char>) -> Option<ArgValue>
    decreases args.len(),
{
    if args.len() == 0 {
        None
    } else if args[0].name@ == key {
        Some(args[0].value)
    } else {
        lookup_arg(args.drop_first(), key)
    }
}

/// The text of the argument named `key`, where it exists and holds text.
pub open spec fn arg_text(args: Seq<ToolArg>, key: Seq<char>) -> Option<Seq<char>> {
    match lookup_arg(args, key) {
        Some(ArgValue::Text(s)) => Some(s@),
        _ => None,
    }
}

/// The integer value of the argument named `key`, where it exists and holds
/// an integer.
pub open spec fn arg_int(args: Seq<ToolArg>, key: Seq<char>) -> Option<i64> {
    match lookup_arg(args, key) {
        Some(ArgValue::Int(v)) => Some(v),
        _ => None,
    }
}

proof fn lemma_lookup_skip(args: Seq<ToolArg>, key: Seq<char>, i: int)
    requires
        0 <= i <= args.len(),
        forall|j: int| 0 <= j < i ==> args[j].name@ != key,
    ensures
        lookup_arg(args, key) == lookup_arg(args.skip(i), key),
    decreases i,
{
    if i > 0 {
        assert(args[0].name@ != key);
        assert(forall|j: int|
            0 <= j < i - 1 ==> args.drop_first()[j].name@ == args[j + 1].name@);
        lemma_lookup_skip(args.drop_first(), key, i - 1);
        assert(args.drop_first().skip(i - 1) =~= args.skip(i));
    } else {
        assert(args.skip(0) =~= args);
    }
}

/// Finds the first argument named `key`.
pub fn find_arg<'a>(args: &'a Vec<ToolArg>, key: &str) -> (r: Option<&'a ArgValue>)
    ensures
        match r {
            Some(v) => lookup_arg(args@, key@) == Some(*v),
            None => lookup_arg(args@, key@) is None,
        },
{
    let key_owned: String = key.to_owned();
    let mut i: usize = 0;
    while i < args.len()
        invariant
            i <= args@.len(),
            key_owned@ == key@,
            forall|j: int| 0 <= j < i ==> args@[j].name@ != key@,
        decreases args@.len() - i,
    {
        if args[i].name == key_owned {
            proof {
                lemma_lookup_skip(args@, key@, i as int);
                assert(args@.skip(i as int)[0] == args@[i as int]);
            }
            return Some(&args[i].value);
        }
        i = i + 1;
    }
    proof {
        lemma_lookup_skip(args@, key@, args@.len() as int);
        assert(args@.skip(args@.len() as int) =~= Seq::<ToolArg>::empty());
    }
    None
}

/// Finds the text of the argument named `key`, if it exists and holds text.
pub fn find_text_arg<'a>(args: &'a Vec<ToolArg>, key: &str) -> (r: Option<&'a String>)
    ensures
        match r {
            Some(s) => arg_text(args@, key@) == Some(s@),
            None => arg_text(args@, key@) is None,
        },
{
    match find_arg(args, key) {
        Some(ArgValue::Text(s)) => Some(s),
        _ => None,
    }
}

/// Finds the integer value of the argument named `key`, if it exists and
/// holds an integer.
pub fn find_int_arg(args: &Vec<ToolArg>, key: &str) -> (r: Option<i64>)
    ensures
        r == arg_int(args@, key@),
{
    match find_arg(args, key) {
        Some(ArgValue::Int(v)) => Some(*v),
        _ => None,
    }
}

} // verus!
