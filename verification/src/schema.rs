use vstd::prelude::*;
use vstd::string::*;

use crate::strutil::{find_sub, match_at};
use crate::tx_wrapper::TxKind;

verus! {

// The declarative schema of a contract: its name and its functions, each
// with a kind and named, typed arguments. From a schema the harness lays
// out one helper blueprint per generated method: a self-directed call and
// one call per well-known participant for each state-changing function,
// and a single read-only helper for each view.

/// The pattern `p` occurs somewhere in `h`.
pub open spec fn has_match(h: Seq<char>, p: Seq<char>) -> bool {
    exists|i: int| match_at(h, p, i)
}

/// The first position at which `p` occurs in `h`.
pub open spec fn first_match(h: Seq<char>, p: Seq<char>) -> int {
    choose|i: int|
        match_at(h, p, i) && (forall|j: int| 0 <= j < i ==> !match_at(h, p, j))
}

/// `h` with the first occurrence of `p`, if any, replaced by `rep`.
pub open spec fn replace_first_spec(h: Seq<char>, p: Seq<char>, rep: Seq<char>) -> Seq<char> {
    if has_match(h, p) {
        h.subrange(0, first_match(h, p)) + rep + h.subrange(
            first_match(h, p) + p.len() as int,
            h.len() as int,
        )
    } else {
        h
    }
}

/// Replaces the first occurrence of `pat` in `s` with `rep`.
pub fn replace_first(s: &str, pat: &str, rep: &str) -> (r: String)
    ensures
        r@ == replace_first_spec(s@, pat@, rep@),
{
    let slen = s.unicode_len();
    let plen = pat.unicode_len();
    match find_sub(s, pat) {
        None => {
            proof {
                assert(!has_match(s@, pat@));
            }
            s.to_owned()
        },
        Some(i) => {
            proof {
                assert(match_at(s@, pat@, i as int));
                assert(has_match(s@, pat@));
                let f = first_match(s@, pat@);
                assert(match_at(s@, pat@, f) && (forall|j: int|
                    0 <= j < f ==> !match_at(s@, pat@, j))) by {
                    assert(match_at(s@, pat@, i as int) && (forall|j: int|
                        0 <= j < i ==> !match_at(s@, pat@, j)));
                }
                if f < i {
                    assert(!match_at(s@, pat@, f));
                } else if i < f {
                    assert(!match_at(s@, pat@, i as int));
                }
                assert(f == i);
            }
            let mut out = s.substring_char(0, i).to_owned();
            out.append(rep);
            out.append(s.substring_char(i + plen, slen));
            out
        },
    }
}

/// Whether a schema function changes state or only reads it.
#[derive(Debug, Copy, Clone, PartialEq, Eq, Structural)]
pub enum FunctionKind {
    Call,
    View,
}

/// One declared argument: its name and its declared type.
#[derive(Debug)]
pub struct ArgumentSchema {
    pub name: String,
    pub ty: String,
}

impl ArgumentSchema {
    pub fn new(name: String, ty: String) -> (r: ArgumentSchema)
        ensures
            r.name == name,
            r.ty == ty,
    {
        ArgumentSchema { name, ty }
    }

    /// The argument as one typed parameter declaration, with an owned
    /// string type turned into a borrowed one.
    pub fn argument(&self) -> (r: String)
        ensures
            r@ == self.name@ + ": "@ + replace_first_spec(self.ty@, "String"@, "&str"@),
    {
        let ty2 = replace_first(self.ty.as_str(), "String", "&str");
        self.name.clone().concat(": ").concat(ty2.as_str())
    }

    /// A copy equal to this argument.
    pub fn duplicate(&self) -> (r: ArgumentSchema)
        ensures
            r == *self,
    {
        ArgumentSchema { name: self.name.clone(), ty: self.ty.clone() }
    }
}

/// `out` is `src` with every argument's type rewritten as `argument` does.
pub open spec fn processed_arg_matches(src: ArgumentSchema, out: ArgumentSchema) -> bool {
    out.name@ == src.name@ && out.ty@ == replace_first_spec(src.ty@, "String"@, "&str"@)
}

pub open spec fn processed_args_match(src: Seq<ArgumentSchema>, out: Seq<ArgumentSchema>) -> bool {
    out.len() == src.len() && forall|t: int|
        0 <= t < src.len() ==> processed_arg_matches(#[trigger] src[t], #[trigger] out[t])
}

/// The layout of one helper method to generate: the contract function it
/// calls, the generated method's name, its parameters, the acting account
/// for account-directed calls, the operation kind, and the contract.
#[derive(Debug)]
pub struct FunctionBlueprint {
    pub contract_function_name: String,
    pub trait_method_name: String,
    pub args: Vec<ArgumentSchema>,
    pub account: Option<String>,
    pub tx_kind: TxKind,
    pub contract_name: String,
}

impl FunctionBlueprint {
    pub fn new(
        contract_function_name: String,
        trait_method_name: String,
        args: Vec<ArgumentSchema>,
        account: Option<String>,
        tx_kind: TxKind,
        contract_name: String,
    ) -> (r: FunctionBlueprint)
        ensures
            r.contract_function_name == contract_function_name,
            r.trait_method_name == trait_method_name,
            r.args == args,
            r.account == account,
            r.tx_kind == tx_kind,
            r.contract_name == contract_name,
    {
        FunctionBlueprint {
            contract_function_name,
            trait_method_name,
            args,
            account,
            tx_kind,
            contract_name,
        }
    }

    /// The operation kind the generated method performs.
    pub fn tx_kind(&self) -> (r: &TxKind)
        ensures
            *r == self.tx_kind,
    {
        &self.tx_kind
    }

    /// The parameter names alone, in order.
    pub fn args_without_types(&self) -> (r: Vec<String>)
        ensures
            r@.len() == self.args@.len(),
            forall|t: int| 0 <= t < r@.len() ==> (#[trigger] r@[t])@ == self.args@[t].name@,
    {
        let mut out: Vec<String> = Vec::new();
        let n = self.args.len();
        let mut i: usize = 0;
        while i < n
            invariant
                n == self.args@.len(),
                i <= n,
                out@.len() == i,
                forall|t: int| 0 <= t < i ==> (#[trigger] out@[t])@ == self.args@[t].name@,
            decreases n - i,
        {
            out.push(self.args[i].name.clone());
            i = i + 1;
        }
        out
    }
}

/// The blueprint of the self-directed call helper for `fs`.
pub open spec fn bp_base_matches(bp: FunctionBlueprint, cname: Seq<char>, fs: FunctionSchema) -> bool {
    &&& bp.contract_function_name@ == fs.name@
    &&& bp.contract_name@ == cname
    &&& processed_args_match(fs.arguments@, bp.args@)
}

pub open spec fn bp_self_call(bp: FunctionBlueprint, cname: Seq<char>, fs: FunctionSchema) -> bool {
    &&& bp_base_matches(bp, cname, fs)
    &&& bp.tx_kind is SelfContractCall
    &&& bp.account is None
    &&& bp.trait_method_name@ == "call_"@ + cname + "_"@ + fs.name@
}

pub open spec fn bp_account_call(
    bp: FunctionBlueprint,
    cname: Seq<char>,
    fs: FunctionSchema,
    acct: Seq<char>,
) -> bool {
    &&& bp_base_matches(bp, cname, fs)
    &&& bp.tx_kind is AccountCallContract
    &&& bp.account matches Some(a) && a@ == acct
    &&& bp.trait_method_name@ == acct + "_call_"@ + cname + "_"@ + fs.name@
}

pub open spec fn bp_view(bp: FunctionBlueprint, cname: Seq<char>, fs: FunctionSchema) -> bool {
    &&& bp_base_matches(bp, cname, fs)
    &&& bp.tx_kind is View
    &&& bp.account is None
    &&& bp.trait_method_name@ == "view_"@ + cname + "_"@ + fs.name@
}

/// One declared contract function: its name, kind, and arguments.
#[derive(Debug)]
pub struct FunctionSchema {
    pub name: String,
    pub kind: FunctionKind,
    pub arguments: Vec<ArgumentSchema>,
}

impl FunctionSchema {
    pub fn new(name: String, kind: FunctionKind, arguments: Vec<ArgumentSchema>) -> (r:
        FunctionSchema)
        ensures
            r.name == name,
            r.kind == kind,
            r.arguments == arguments,
    {
        FunctionSchema { name, kind, arguments }
    }

    /// Whether the function changes state or only reads it.
    pub fn kind(&self) -> (r: &FunctionKind)
        ensures
            *r == self.kind,
    {
        &self.kind
    }

    /// The arguments with their types rewritten for generated parameters.
    pub fn processed_arguments(&self) -> (r: Vec<ArgumentSchema>)
        ensures
            processed_args_match(self.arguments@, r@),
    {
        let mut out: Vec<ArgumentSchema> = Vec::new();
        let n = self.arguments.len();
        let mut i: usize = 0;
        while i < n
            invariant
                n == self.arguments@.len(),
                i <= n,
                out@.len() == i,
                forall|t: int|
                    0 <= t < i ==> processed_arg_matches(
                        #[trigger] self.arguments@[t],
                        #[trigger] out@[t],
                    ),
            decreases n - i,
        {
            let a = &self.arguments[i];
            let ty2 = replace_first(a.ty.as_str(), "String", "&str");
            out.push(ArgumentSchema { name: a.name.clone(), ty: ty2 });
            i = i + 1;
        }
        out
    }

    /// The helper blueprints this function contributes: for a
    /// state-changing function, one self-directed call and one call per
    /// participant, in the participants' order; for a view, one read-only
    /// helper.
    pub fn blueprints(&self, contract_name: &str, accounts: &Vec<&'static str>) -> (r: Vec<
        FunctionBlueprint,
    >)
        ensures
            match self.kind {
                FunctionKind::Call => {
                    &&& r@.len() == 1 + accounts@.len()
                    &&& bp_self_call(r@[0], contract_name@, *self)
                    &&& forall|t: int|
                        0 <= t < accounts@.len() ==> bp_account_call(
                            #[trigger] r@[t + 1],
                            contract_name@,
                            *self,
                            accounts@[t]@,
                        )
                },
                FunctionKind::View => r@.len() == 1 && bp_view(r@[0], contract_name@, *self),
            },
    {
        let args = self.processed_arguments();
        let mut ret: Vec<FunctionBlueprint> = Vec::new();
        match self.kind {
            FunctionKind::Call => {
                let name = String::from_str("call_").concat(contract_name).concat("_").concat(
                    self.name.as_str(),
                );
                ret.push(
                    FunctionBlueprint {
                        contract_function_name: self.name.clone(),
                        trait_method_name: name,
                        args: duplicate_args(&args),
                        account: None,
                        tx_kind: TxKind::SelfContractCall,
                        contract_name: contract_name.to_owned(),
                    },
                );
                let na = accounts.len();
                let mut t: usize = 0;
                while t < na
                    invariant
                        na == accounts@.len(),
                        t <= na,
                        ret@.len() == 1 + t,
                        bp_self_call(ret@[0], contract_name@, *self),
                        processed_args_match(self.arguments@, args@),
                        forall|u: int|
                            0 <= u < t ==> bp_account_call(
                                #[trigger] ret@[u + 1],
                                contract_name@,
                                *self,
                                accounts@[u]@,
                            ),
                    decreases na - t,
                {
                    let acct = accounts[t];
                    let mname = acct.to_owned().concat("_call_").concat(contract_name).concat(
                        "_",
                    ).concat(self.name.as_str());
                    ret.push(
                        FunctionBlueprint {
                            contract_function_name: self.name.clone(),
                            trait_method_name: mname,
                            args: duplicate_args(&args),
                            account: Some(acct.to_owned()),
                            tx_kind: TxKind::AccountCallContract,
                            contract_name: contract_name.to_owned(),
                        },
                    );
                    t = t + 1;
                }
                ret
            },
            FunctionKind::View => {
                let name = String::from_str("view_").concat(contract_name).concat("_").concat(
                    self.name.as_str(),
                );
                ret.push(
                    FunctionBlueprint {
                        contract_function_name: self.name.clone(),
                        trait_method_name: name,
                        args,
                        account: None,
                        tx_kind: TxKind::View,
                        contract_name: contract_name.to_owned(),
                    },
                );
                ret
            },
        }
    }
}

/// A copy of an argument list, equal elementwise.
fn duplicate_args(v: &Vec<ArgumentSchema>) -> (r: Vec<ArgumentSchema>)
    ensures
        r@ == v@,
{
    let mut out: Vec<ArgumentSchema> = Vec::new();
    let n = v.len();
    let mut i: usize = 0;
    while i < n
        invariant
            n == v@.len(),
            i <= n,
            out@.len() == i,
            forall|t: int| 0 <= t < i ==> #[trigger] out@[t] == v@[t],
        decreases n - i,
    {
        out.push(v[i].duplicate());
        i = i + 1;
    }
    proof {
        assert(out@ =~= v@);
    }
    out
}

/// The number of blueprints one function contributes.
pub open spec fn bp_count(fs: FunctionSchema, na: int) -> int {
    match fs.kind {
        FunctionKind::Call => 1 + na,
        FunctionKind::View => 1,
    }
}

/// Where the blueprints of the `k`-th function start in the flattened list.
pub open spec fn bp_offset(fns: Seq<FunctionSchema>, k: int, na: int) -> int
    decreases k,
{
    if k <= 0 {
        0
    } else {
        bp_offset(fns, k - 1, na) + bp_count(fns[k - 1], na)
    }
}

/// Block offsets never decrease: each function's block ends at or before
/// the next one's start.
pub proof fn lemma_bp_offset_mono(fns: Seq<FunctionSchema>, a: int, b: int, na: int)
    requires
        0 <= a < b <= fns.len(),
        na >= 0,
    ensures
        bp_offset(fns, a, na) + bp_count(fns[a], na) <= bp_offset(fns, b, na),
    decreases b,
{
    if b == a + 1 {
    } else {
        lemma_bp_offset_mono(fns, a, b - 1, na);
    }
}

/// Offsets are never negative.
pub proof fn lemma_bp_offset_nonneg(fns: Seq<FunctionSchema>, k: int, na: int)
    requires
        0 <= k <= fns.len(),
        na >= 0,
    ensures
        bp_offset(fns, k, na) >= 0,
    decreases k,
{
    if k > 0 {
        lemma_bp_offset_nonneg(fns, k - 1, na);
    }
}

/// The blueprint at offset `j` within one function's block.
pub open spec fn bp_at_matches(
    bp: FunctionBlueprint,
    cname: Seq<char>,
    fs: FunctionSchema,
    j: int,
    accounts: Seq<&'static str>,
) -> bool {
    match fs.kind {
        FunctionKind::Call => if j == 0 {
            bp_self_call(bp, cname, fs)
        } else {
            bp_account_call(bp, cname, fs, accounts[j - 1]@)
        },
        FunctionKind::View => bp_view(bp, cname, fs),
    }
}

/// One whole contract schema: the contract's name and its functions.
#[derive(Debug)]
pub struct ContractSchema {
    pub name: String,
    pub functions: Vec<FunctionSchema>,
}

impl ContractSchema {
    pub fn new(name: String, functions: Vec<FunctionSchema>) -> (r: ContractSchema)
        ensures
            r.name == name,
            r.functions == functions,
    {
        ContractSchema { name, functions }
    }

    /// All helper blueprints of the contract: each function's block in
    /// order, functions in declaration order.
    #[verifier::loop_isolation(false)]
    pub fn blueprints(&self, accounts: &Vec<&'static str>) -> (r: Vec<FunctionBlueprint>)
        ensures
            r@.len() == bp_offset(self.functions@, self.functions@.len() as int, accounts@.len() as int),
            forall|k: int, j: int|
                0 <= k < self.functions@.len() && 0 <= j < bp_count(
                    #[trigger] self.functions@[k],
                    accounts@.len() as int,
                ) ==> bp_at_matches(
                    #[trigger] r@[bp_offset(self.functions@, k, accounts@.len() as int) + j],
                    self.name@,
                    self.functions@[k],
                    j,
                    accounts@,
                ),
    {
        let ghost na = accounts@.len() as int;
        let ghost fns = self.functions@;
        let mut out: Vec<FunctionBlueprint> = Vec::new();
        let n = self.functions.len();
        let mut k: usize = 0;
        while k < n
            invariant
                out@.len() == bp_offset(fns, k as int, na),
                k <= n,
                forall|k2: int, j: int|
                    0 <= k2 < k && 0 <= j < bp_count(#[trigger] fns[k2], na) ==> bp_at_matches(
                        #[trigger] out@[bp_offset(fns, k2, na) + j],
                        self.name@,
                        fns[k2],
                        j,
                        accounts@,
                    ),
            decreases n - k,
        {
            let ghost old_out = out@;
            let mut block = self.functions[k].blueprints(self.name.as_str(), accounts);
            let ghost block_seq = block@;
            proof {
                let fk = fns[k as int];
                assert(block_seq.len() == bp_count(fk, na));
                match fk.kind {
                    FunctionKind::Call => {
                        assert(bp_self_call(block_seq[0], self.name@, fk));
                        assert forall|j: int| 1 <= j < block_seq.len() implies bp_account_call(
                            #[trigger] block_seq[j],
                            self.name@,
                            fk,
                            accounts@[j - 1]@,
                        ) by {
                            assert(bp_account_call(
                                block_seq[(j - 1) + 1],
                                self.name@,
                                fk,
                                accounts@[j - 1]@,
                            ));
                        }
                    },
                    FunctionKind::View => {
                        assert(bp_view(block_seq[0], self.name@, fk));
                    },
                }
                assert(forall|j: int|
                    0 <= j < bp_count(fk, na) ==> bp_at_matches(
                        #[trigger] block_seq[j],
                        self.name@,
                        fk,
                        j,
                        accounts@,
                    ));
            }
            out.append(&mut block);
            proof {
                assert(out@ == old_out + block_seq);
                assert(forall|j: int|
                    0 <= j < block_seq.len() ==> out@[old_out.len() + j] == block_seq[j]);
                assert(forall|t: int| 0 <= t < old_out.len() ==> out@[t] == old_out[t]);
                assert forall|k2: int, j: int|
                    0 <= k2 < k + 1 && 0 <= j < bp_count(#[trigger] fns[k2], na) implies
                    bp_at_matches(
                    #[trigger] out@[bp_offset(fns, k2, na) + j],
                    self.name@,
                    fns[k2],
                    j,
                    accounts@,
                ) by {
                    lemma_bp_offset_nonneg(fns, k2, na);
                    if k2 < k {
                        lemma_bp_offset_mono(fns, k2, k as int, na);
                        assert(bp_offset(fns, k2, na) + j < old_out.len());
                        assert(out@[bp_offset(fns, k2, na) + j] == old_out[bp_offset(fns, k2, na)
                            + j]);
                    } else {
                        assert(bp_offset(fns, k2, na) == old_out.len());
                        assert(out@[old_out.len() + j] == block_seq[j]);
                    }
                }
            }
            k = k + 1;
        }
        out
    }
}

} // verus!
