//! Exported names for the overloads that share a base name.

use crate::cpp_ffi_data::{
    ffi_signatures_model, signature_caption_of, ArgumentCaptionStrategy, CppFfiFunctionSignature,
    FfiSignatureModel, MethodCaptionStrategy,
};
use crate::cpp_type::TypeCaptionStrategy;
use crate::errors::{texts_result_is, texts_then, Error};
use crate::text::texts_of;
use vstd::prelude::*;

verus! {

/// The caption strategies in the order in which they are tried: the more
/// terse a strategy, the earlier.
pub open spec fn caption_strategies() -> Seq<MethodCaptionStrategy> {
    seq![
        MethodCaptionStrategy::ArgumentsOnly(ArgumentCaptionStrategy::NameOnly),
        MethodCaptionStrategy::ArgumentsOnly(
            ArgumentCaptionStrategy::TypeOnly(TypeCaptionStrategy::Short),
        ),
        MethodCaptionStrategy::ArgumentsOnly(
            ArgumentCaptionStrategy::TypeOnly(TypeCaptionStrategy::Full),
        ),
        MethodCaptionStrategy::ArgumentsOnly(
            ArgumentCaptionStrategy::TypeAndName(TypeCaptionStrategy::Short),
        ),
        MethodCaptionStrategy::ArgumentsOnly(
            ArgumentCaptionStrategy::TypeAndName(TypeCaptionStrategy::Full),
        ),
        MethodCaptionStrategy::ConstOnly,
        MethodCaptionStrategy::ConstAndArguments(ArgumentCaptionStrategy::NameOnly),
        MethodCaptionStrategy::ConstAndArguments(
            ArgumentCaptionStrategy::TypeOnly(TypeCaptionStrategy::Short),
        ),
        MethodCaptionStrategy::ConstAndArguments(
            ArgumentCaptionStrategy::TypeOnly(TypeCaptionStrategy::Full),
        ),
        MethodCaptionStrategy::ConstAndArguments(
            ArgumentCaptionStrategy::TypeAndName(TypeCaptionStrategy::Short),
        ),
        MethodCaptionStrategy::ConstAndArguments(
            ArgumentCaptionStrategy::TypeAndName(TypeCaptionStrategy::Full),
        ),
    ]
}

/// The captions of the signatures under one strategy, or the first failure.
pub open spec fn captions_under(
    sigs: Seq<FfiSignatureModel>,
    strategy: MethodCaptionStrategy,
) -> Result<Seq<Seq<char>>, Error>
    decreases sigs.len(),
{
    if sigs.len() == 0 {
        Ok(Seq::empty())
    } else {
        match signature_caption_of(sigs.first(), strategy) {
            Err(e) => Err(e),
            Ok(caption) => match captions_under(sigs.drop_first(), strategy) {
                Err(e) => Err(e),
                Ok(captions) => Ok(seq![caption] + captions),
            },
        }
    }
}

/// Whether the strategy gives every signature a caption, and no two the same.
pub open spec fn distinguishes(
    sigs: Seq<FfiSignatureModel>,
    strategy: MethodCaptionStrategy,
) -> bool {
    captions_under(sigs, strategy) matches Ok(captions) && captions.no_duplicates()
}

/// The first of the strategies that distinguishes the signatures.
pub open spec fn first_distinguishing(
    sigs: Seq<FfiSignatureModel>,
    strategies: Seq<MethodCaptionStrategy>,
) -> Option<MethodCaptionStrategy>
    decreases strategies.len(),
{
    if strategies.len() == 0 {
        None
    } else if distinguishes(sigs, strategies.first()) {
        Some(strategies.first())
    } else {
        first_distinguishing(sigs, strategies.drop_first())
    }
}

/// The base name, followed by `_` and the caption where the caption is not
/// empty.
pub open spec fn captioned(base: Seq<char>, caption: Seq<char>) -> Seq<char> {
    if caption.len() == 0 {
        base
    } else {
        base + "_"@ + caption
    }
}

/// The base name with each of the captions.
pub open spec fn all_captioned(base: Seq<char>, captions: Seq<Seq<char>>) -> Seq<Seq<char>> {
    Seq::new(captions.len(), |i: int| captioned(base, captions[i]))
}

/// The names under which the overloads of one base name are exported: the
/// base name itself for a single function; else the base name with the
/// captions of the first strategy that tells the overloads apart; and none
/// where no strategy does.
pub open spec fn exported_names_of(base: Seq<char>, sigs: Seq<FfiSignatureModel>) -> Option<
    Seq<Seq<char>>,
> {
    if sigs.len() == 1 {
        Some(seq![base])
    } else {
        match first_distinguishing(sigs, caption_strategies()) {
            Some(strategy) => Some(all_captioned(base, captions_under(sigs, strategy)->Ok_0)),
            None => None,
        }
    }
}

/// Different captions give different names.
pub proof fn lemma_captioned_injective(base: Seq<char>, a: Seq<char>, b: Seq<char>)
    requires
        captioned(base, a) == captioned(base, b),
    ensures
        a == b,
{
    reveal_strlit("_");
    let n = base.len() as int;
    if a.len() > 0 && b.len() > 0 {
        let x = base + "_"@ + a;
        assert(x.len() == n + 1 + a.len());
        assert forall|i: int| 0 <= i < a.len() implies a[i] == b[i] by {
            assert(x[n + 1 + i] == a[i]);
        }
    }
}

/// The exported names of the overloads of one base name differ from each
/// other.
pub proof fn lemma_exported_names_distinct(base: Seq<char>, sigs: Seq<FfiSignatureModel>)
    requires
        exported_names_of(base, sigs) is Some,
    ensures
        exported_names_of(base, sigs)->Some_0.no_duplicates(),
        exported_names_of(base, sigs)->Some_0.len() == sigs.len(),
{
    let names = exported_names_of(base, sigs)->Some_0;
    if sigs.len() != 1 {
        lemma_first_distinguishing_distinguishes(sigs, caption_strategies());
        let strategy = first_distinguishing(sigs, caption_strategies())->Some_0;
        let captions = captions_under(sigs, strategy)->Ok_0;
        lemma_captions_under_len(sigs, strategy);
        assert forall|i: int, j: int|
            0 <= i < names.len() && 0 <= j < names.len() && i != j implies names[i] != names[j] by {
            if names[i] == names[j] {
                lemma_captioned_injective(base, captions[i], captions[j]);
            }
        }
    }
}

/// The strategy that `first_distinguishing` finds distinguishes the
/// signatures.
pub proof fn lemma_first_distinguishing_distinguishes(
    sigs: Seq<FfiSignatureModel>,
    strategies: Seq<MethodCaptionStrategy>,
)
    requires
        first_distinguishing(sigs, strategies) is Some,
    ensures
        distinguishes(sigs, first_distinguishing(sigs, strategies)->Some_0),
    decreases strategies.len(),
{
    if strategies.len() > 0 && !distinguishes(sigs, strategies.first()) {
        lemma_first_distinguishing_distinguishes(sigs, strategies.drop_first());
    }
}

/// Every signature has its caption.
pub proof fn lemma_captions_under_len(sigs: Seq<FfiSignatureModel>, strategy: MethodCaptionStrategy)
    requires
        captions_under(sigs, strategy) is Ok,
    ensures
        captions_under(sigs, strategy)->Ok_0.len() == sigs.len(),
    decreases sigs.len(),
{
    if sigs.len() > 0 {
        lemma_captions_under_len(sigs.drop_first(), strategy);
    }
}

impl ArgumentCaptionStrategy {
    /// All strategies, from the most terse on.
    pub open spec fn all_strategies() -> Seq<ArgumentCaptionStrategy> {
        seq![
            ArgumentCaptionStrategy::NameOnly,
            ArgumentCaptionStrategy::TypeOnly(TypeCaptionStrategy::Short),
            ArgumentCaptionStrategy::TypeOnly(TypeCaptionStrategy::Full),
            ArgumentCaptionStrategy::TypeAndName(TypeCaptionStrategy::Short),
            ArgumentCaptionStrategy::TypeAndName(TypeCaptionStrategy::Full),
        ]
    }

    /// All strategies, from the most terse on.
    pub fn all() -> (r: Vec<ArgumentCaptionStrategy>)
        ensures
            r@ == ArgumentCaptionStrategy::all_strategies(),
    {
        vec![
            ArgumentCaptionStrategy::NameOnly,
            ArgumentCaptionStrategy::TypeOnly(TypeCaptionStrategy::Short),
            ArgumentCaptionStrategy::TypeOnly(TypeCaptionStrategy::Full),
            ArgumentCaptionStrategy::TypeAndName(TypeCaptionStrategy::Short),
            ArgumentCaptionStrategy::TypeAndName(TypeCaptionStrategy::Full),
        ]
    }
}

impl MethodCaptionStrategy {
    /// All strategies, in the order in which they are tried.
    pub fn all() -> (r: Vec<MethodCaptionStrategy>)
        ensures
            r@ == caption_strategies(),
    {
        let arguments = ArgumentCaptionStrategy::all();
        let mut out: Vec<MethodCaptionStrategy> = Vec::new();
        let mut i: usize = 0;
        while i < arguments.len()
            invariant
                i <= arguments.len(),
                arguments@ == ArgumentCaptionStrategy::all_strategies(),
                out@ == Seq::new(
                    i as nat,
                    |k: int| MethodCaptionStrategy::ArgumentsOnly(arguments@[k]),
                ),
            decreases arguments.len() - i,
        {
            out.push(MethodCaptionStrategy::ArgumentsOnly(arguments[i]));
            i += 1;
        }
        out.push(MethodCaptionStrategy::ConstOnly);
        let ghost head = out@;
        let mut j: usize = 0;
        while j < arguments.len()
            invariant
                j <= arguments.len(),
                arguments@ == ArgumentCaptionStrategy::all_strategies(),
                out@ == head + Seq::new(
                    j as nat,
                    |k: int| MethodCaptionStrategy::ConstAndArguments(arguments@[k]),
                ),
            decreases arguments.len() - j,
        {
            out.push(MethodCaptionStrategy::ConstAndArguments(arguments[j]));
            j += 1;
        }
        out
    }
}

/// The captions of the signatures under one strategy, or the first failure.
pub fn captions_for(
    signatures: &Vec<CppFfiFunctionSignature>,
    strategy: MethodCaptionStrategy,
) -> (r: Result<Vec<String>, Error>)
    ensures
        texts_result_is(r, captions_under(ffi_signatures_model(signatures@), strategy)),
{
    let ghost m = ffi_signatures_model(signatures@);
    let mut out: Vec<String> = Vec::new();
    let mut i: usize = 0;
    proof {
        assert(m.skip(0) =~= m);
    }
    while i < signatures.len()
        invariant
            i <= signatures.len(),
            m == ffi_signatures_model(signatures@),
            captions_under(m, strategy) == texts_then(
                texts_of(out@),
                captions_under(m.skip(i as int), strategy),
            ),
        decreases signatures.len() - i,
    {
        let ghost before = texts_of(out@);
        proof {
            assert(m.skip(i as int).drop_first() =~= m.skip(i + 1));
        }
        let caption = signatures[i].caption(strategy)?;
        out.push(caption);
        proof {
            let tail = captions_under(m.skip(i + 1), strategy);
            if tail is Ok {
                assert(texts_of(out@) + tail->Ok_0 =~= before + (seq![caption@] + tail->Ok_0));
            }
        }
        i += 1;
    }
    Ok(out)
}

/// Whether no two of the texts are the same.
pub fn all_distinct(texts: &Vec<String>) -> (r: bool)
    ensures
        r == texts_of(texts@).no_duplicates(),
{
    let ghost m = texts_of(texts@);
    let mut i: usize = 0;
    while i < texts.len()
        invariant
            i <= texts.len(),
            m == texts_of(texts@),
            forall|a: int, b: int| 0 <= a < i && 0 <= b < a ==> m[a] != m[b],
        decreases texts.len() - i,
    {
        let mut j: usize = 0;
        while j < i
            invariant
                j <= i,
                i < texts.len(),
                m == texts_of(texts@),
                forall|b: int| 0 <= b < j ==> m[i as int] != m[b],
            decreases i - j,
        {
            if texts[i] == texts[j] {
                assert(m[i as int] == m[j as int]);
                return false;
            }
            j += 1;
        }
        i += 1;
    }
    true
}

/// The first strategy under which every signature has a caption and no two
/// have the same.
pub fn choose_caption_strategy(signatures: &Vec<CppFfiFunctionSignature>) -> (r: Option<
    MethodCaptionStrategy,
>)
    ensures
        r == first_distinguishing(ffi_signatures_model(signatures@), caption_strategies()),
{
    let ghost m = ffi_signatures_model(signatures@);
    let strategies = MethodCaptionStrategy::all();
    let mut i: usize = 0;
    proof {
        assert(strategies@.skip(0) =~= strategies@);
    }
    while i < strategies.len()
        invariant
            i <= strategies.len(),
            m == ffi_signatures_model(signatures@),
            strategies@ == caption_strategies(),
            first_distinguishing(m, caption_strategies()) == first_distinguishing(
                m,
                strategies@.skip(i as int),
            ),
        decreases strategies.len() - i,
    {
        proof {
            assert(strategies@.skip(i as int).drop_first() =~= strategies@.skip(i + 1));
        }
        if let Ok(captions) = captions_for(signatures, strategies[i]) {
            if all_distinct(&captions) {
                return Some(strategies[i]);
            }
        }
        i += 1;
    }
    None
}

/// The names under which the overloads of one base name are exported. A
/// single function keeps the base name. Several get the base name and, after
/// `_`, their captions under the first strategy that tells them apart. The
/// names differ from each other.
pub fn exported_names(base: &str, signatures: &Vec<CppFfiFunctionSignature>) -> (r: Result<
    Vec<String>,
    Error,
>)
    ensures
        match exported_names_of(base@, ffi_signatures_model(signatures@)) {
            Some(names) => r is Ok && texts_of(r->Ok_0@) == names && names.no_duplicates()
                && names.len() == signatures.len(),
            None => r matches Err(Error::AmbiguousOverloads),
        },
{
    let ghost m = ffi_signatures_model(signatures@);
    proof {
        if exported_names_of(base@, m) is Some {
            lemma_exported_names_distinct(base@, m);
        }
    }
    if signatures.len() == 1 {
        let out = vec![String::from_str(base)];
        return Ok(out);
    }
    let strategy = match choose_caption_strategy(signatures) {
        Some(strategy) => strategy,
        None => {
            return Err(Error::AmbiguousOverloads);
        },
    };
    proof {
        lemma_first_distinguishing_distinguishes(m, caption_strategies());
    }
    let captions = match captions_for(signatures, strategy) {
        Ok(captions) => captions,
        Err(e) => {
            return Err(e);
        },
    };
    let mut out: Vec<String> = Vec::new();
    let mut i: usize = 0;
    while i < captions.len()
        invariant
            i <= captions.len(),
            out.len() == i,
            forall|k: int|
                0 <= k < i ==> (#[trigger] out@[k])@ == captioned(base@, texts_of(captions@)[k]),
        decreases captions.len() - i,
    {
        let mut name = String::from_str(base);
        if captions[i].as_str().unicode_len() > 0 {
            name.append("_");
            name.append(captions[i].as_str());
        }
        out.push(name);
        i += 1;
    }
    Ok(out)
}

} // verus!
