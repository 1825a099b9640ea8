use vstd::prelude::*;
use vstd::string::StrSliceExecFns;
use crate::chars::decode;

verus! {

/// The unary operations that an expression can call by name.
#[derive(Clone, Copy, Debug, PartialEq, Eq, Structural)]
pub enum Function {
    Sin,
    Cos,
    Tan,
    ASin,
    ACos,
    ATan,
    Floor,
    Ceiling,
}

/// The recognised names, in the order in which they are tried.
pub open spec fn spec_str_funcs() -> Seq<Seq<char>> {
    seq![
        seq!['s', 'i', 'n'],
        seq!['c', 'o', 's'],
        seq!['t', 'a', 'n'],
        seq!['a', 's', 'i', 'n'],
        seq!['a', 'c', 'o', 's'],
        seq!['a', 't', 'a', 'n'],
        seq!['f', 'l', 'o', 'o', 'r'],
        seq!['c', 'e', 'i', 'l'],
    ]
}

/// The operations, in the order of their names.
pub open spec fn spec_functions() -> Seq<Function> {
    seq![
        Function::Sin,
        Function::Cos,
        Function::Tan,
        Function::ASin,
        Function::ACos,
        Function::ATan,
        Function::Floor,
        Function::Ceiling,
    ]
}

impl Function {
    /// The name by which the operation is called.
    pub open spec fn spec_name(self) -> Seq<char> {
        match self {
            Function::Sin => spec_str_funcs()[0],
            Function::Cos => spec_str_funcs()[1],
            Function::Tan => spec_str_funcs()[2],
            Function::ASin => spec_str_funcs()[3],
            Function::ACos => spec_str_funcs()[4],
            Function::ATan => spec_str_funcs()[5],
            Function::Floor => spec_str_funcs()[6],
            Function::Ceiling => spec_str_funcs()[7],
        }
    }
}

/// The operation whose name is exactly `name`, if there is one.
pub open spec fn spec_str_func_to_real(name: Seq<char>) -> Option<Function> {
    if exists|f: Function| f.spec_name() == name {
        Some(choose|f: Function| f.spec_name() == name)
    } else {
        None
    }
}

/// Whether `name` stands in `text` at offset `at` and ends no later than
/// `end`.
pub open spec fn name_at(text: Seq<char>, at: int, end: int, name: Seq<char>) -> bool {
    &&& 0 <= at
    &&& at + name.len() <= end <= text.len()
    &&& text.subrange(at, at + name.len()) == name
}

/// The operation whose name stands in `text` at offset `at`, inside the
/// range that ends at `end`, if there is one.
pub open spec fn spec_match_function(text: Seq<char>, at: int, end: int) -> Option<Function> {
    if exists|f: Function| name_at(text, at, end, f.spec_name()) {
        Some(choose|f: Function| name_at(text, at, end, f.spec_name()))
    } else {
        None
    }
}

/// No name begins with another: two names that stand at one offset are the
/// same name, and so are two operations with one name.
pub proof fn lemma_names_prefix_free(text: Seq<char>, at: int, end: int, f: Function, g: Function)
    requires
        name_at(text, at, end, f.spec_name()),
        name_at(text, at, end, g.spec_name()),
    ensures
        f == g,
{
    let a = f.spec_name();
    let b = g.spec_name();
    assert(a.len() >= 3 && b.len() >= 3);
    assert(text.subrange(at, at + a.len())[0] == text[at]);
    assert(text.subrange(at, at + b.len())[0] == text[at]);
    assert(text.subrange(at, at + a.len())[1] == text[at + 1]);
    assert(text.subrange(at, at + b.len())[1] == text[at + 1]);
    assert(text.subrange(at, at + a.len())[2] == text[at + 2]);
    assert(text.subrange(at, at + b.len())[2] == text[at + 2]);
    assert(a[0] == b[0] && a[1] == b[1] && a[2] == b[2]);
}

/// An operation is matched at an offset exactly where its name stands
/// there.
pub proof fn lemma_match_function(text: Seq<char>, at: int, end: int, f: Function)
    ensures
        spec_match_function(text, at, end) == Some(f) <==> name_at(text, at, end, f.spec_name()),
{
    if name_at(text, at, end, f.spec_name()) {
        let g = choose|g: Function| name_at(text, at, end, g.spec_name());
        lemma_names_prefix_free(text, at, end, f, g);
    }
}

/// An operation is found by a name exactly where the name is its own.
pub proof fn lemma_str_func_to_real(name: Seq<char>, f: Function)
    ensures
        spec_str_func_to_real(name) == Some(f) <==> f.spec_name() == name,
{
    if f.spec_name() == name {
        let g = choose|g: Function| g.spec_name() == name;
        assert(name_at(name, 0, name.len() as int, f.spec_name())) by {
            assert(name.subrange(0, name.len() as int) =~= name);
        }
        assert(name_at(name, 0, name.len() as int, g.spec_name())) by {
            assert(name.subrange(0, name.len() as int) =~= name);
        }
        lemma_names_prefix_free(name, 0, name.len() as int, f, g);
    }
}

/// The recognised names, in the order in which they are tried.
pub fn str_funcs() -> (names: [&'static str; 8])
    ensures
        forall|i: int| 0 <= i < 8 ==> (#[trigger] names@[i])@ == spec_str_funcs()[i],
{
    proof {
        reveal_strlit("sin");
        reveal_strlit("cos");
        reveal_strlit("tan");
        reveal_strlit("asin");
        reveal_strlit("acos");
        reveal_strlit("atan");
        reveal_strlit("floor");
        reveal_strlit("ceil");
        assert("sin"@ =~= spec_str_funcs()[0]);
        assert("cos"@ =~= spec_str_funcs()[1]);
        assert("tan"@ =~= spec_str_funcs()[2]);
        assert("asin"@ =~= spec_str_funcs()[3]);
        assert("acos"@ =~= spec_str_funcs()[4]);
        assert("atan"@ =~= spec_str_funcs()[5]);
        assert("floor"@ =~= spec_str_funcs()[6]);
        assert("ceil"@ =~= spec_str_funcs()[7]);
    }
    ["sin", "cos", "tan", "asin", "acos", "atan", "floor", "ceil"]
}

/// The operations, in the order of their names.
pub fn functions() -> (kinds: [Function; 8])
    ensures
        kinds@ == spec_functions(),
{
    let kinds = [
        Function::Sin,
        Function::Cos,
        Function::Tan,
        Function::ASin,
        Function::ACos,
        Function::ATan,
        Function::Floor,
        Function::Ceiling,
    ];
    assert(kinds@ =~= spec_functions());
    kinds
}

/// Whether `name` stands in `text` at offset `at` and ends no later than
/// `end`.
pub fn starts_with_at(text: &[char], at: usize, end: usize, name: &str) -> (b: bool)
    ensures
        b == name_at(text@, at as int, end as int, name@),
{
    if end > text.len() || at > end {
        return false;
    }
    let n: usize = name.unicode_len();
    if end - at < n {
        return false;
    }
    let mut k: usize = 0;
    while k < n
        invariant
            k <= n,
            n == name@.len(),
            at + n <= end <= text@.len(),
            text@.subrange(at as int, at + k) == name@.subrange(0, k as int),
        decreases n - k,
    {
        if text[at + k] != name.get_char(k) {
            proof {
                assert(text@.subrange(at as int, at + n)[k as int] == text@[at + k]);
            }
            return false;
        }
        proof {
            assert(text@.subrange(at as int, at + k + 1) =~= text@.subrange(
                at as int,
                at + k,
            ).push(text@[at + k]));
            assert(name@.subrange(0, k + 1) =~= name@.subrange(0, k as int).push(name@[k as int]));
        }
        k = k + 1;
    }
    proof {
        assert(name@.subrange(0, n as int) =~= name@);
    }
    true
}

/// The operation that `f` names, if it names one.
pub fn str_func_to_real(f: &str) -> (found: Option<Function>)
    ensures
        found == spec_str_func_to_real(f@),
{
    let text = decode(f);
    let names = str_funcs();
    let kinds = functions();
    let mut i: usize = 0;
    while i < 8
        invariant
            i <= 8,
            text@ == f@,
            kinds@ == spec_functions(),
            forall|j: int| 0 <= j < 8 ==> (#[trigger] names@[j])@ == spec_str_funcs()[j],
            forall|j: int| 0 <= j < i ==> #[trigger] spec_str_funcs()[j] != f@,
        decreases 8 - i,
    {
        if names[i].unicode_len() == text.len() && starts_with_at(
            text.as_slice(),
            0,
            text.len(),
            names[i],
        ) {
            let kind = kinds[i];
            proof {
                assert(text@.subrange(0, text@.len() as int) =~= text@);
                assert(kind.spec_name() == spec_str_funcs()[i as int]);
                lemma_str_func_to_real(f@, kind);
            }
            return Some(kind);
        }
        proof {
            if spec_str_funcs()[i as int] == f@ {
                assert(text@.subrange(0, text@.len() as int) =~= text@);
            }
        }
        i = i + 1;
    }
    proof {
        assert forall|g: Function| g.spec_name() != f@ by {
            lemma_name_in_table(g);
        }
    }
    None
}

/// The operation that stands in `text` at offset `at`, inside the range
/// that ends at `end`: its name is the one of the recognised names that
/// the text there begins with.
pub fn match_function(text: &[char], at: usize, end: usize) -> (found: Option<Function>)
    ensures
        found == spec_match_function(text@, at as int, end as int),
{
    let names = str_funcs();
    let mut i: usize = 0;
    while i < 8
        invariant
            i <= 8,
            forall|j: int| 0 <= j < 8 ==> (#[trigger] names@[j])@ == spec_str_funcs()[j],
            forall|j: int|
                0 <= j < i ==> !name_at(text@, at as int, end as int, #[trigger] spec_str_funcs()[j]),
        decreases 8 - i,
    {
        if starts_with_at(text, at, end, names[i]) {
            let found = str_func_to_real(names[i]);
            proof {
                let kind = spec_functions()[i as int];
                assert(kind.spec_name() == spec_str_funcs()[i as int]);
                lemma_str_func_to_real(names@[i as int]@, kind);
                lemma_match_function(text@, at as int, end as int, kind);
            }
            return found;
        }
        i = i + 1;
    }
    proof {
        assert forall|f: Function| !name_at(text@, at as int, end as int, f.spec_name()) by {
            lemma_name_in_table(f);
        }
    }
    None
}

/// Every operation has its name in the table, at its own place.
pub proof fn lemma_name_in_table(f: Function)
    ensures
        exists|j: int|
            0 <= j < 8 && f.spec_name() == #[trigger] spec_str_funcs()[j] && spec_functions()[j]
                == f,
{
    match f {
        Function::Sin => assert(f.spec_name() == spec_str_funcs()[0] && spec_functions()[0] == f),
        Function::Cos => assert(f.spec_name() == spec_str_funcs()[1] && spec_functions()[1] == f),
        Function::Tan => assert(f.spec_name() == spec_str_funcs()[2] && spec_functions()[2] == f),
        Function::ASin => assert(f.spec_name() == spec_str_funcs()[3] && spec_functions()[3] == f),
        Function::ACos => assert(f.spec_name() == spec_str_funcs()[4] && spec_functions()[4] == f),
        Function::ATan => assert(f.spec_name() == spec_str_funcs()[5] && spec_functions()[5] == f),
        Function::Floor => assert(f.spec_name() == spec_str_funcs()[6] && spec_functions()[6]
            == f),
        Function::Ceiling => assert(f.spec_name() == spec_str_funcs()[7] && spec_functions()[7]
            == f),
    }
}

/// The number of characters in the name of `f`.
pub fn name_len(f: Function) -> (n: usize)
    ensures
        n == f.spec_name().len(),
        3 <= n <= 5,
{
    match f {
        Function::Sin => 3,
        Function::Cos => 3,
        Function::Tan => 3,
        Function::ASin => 4,
        Function::ACos => 4,
        Function::ATan => 4,
        Function::Floor => 5,
        Function::Ceiling => 4,
    }
}

} // verus!
