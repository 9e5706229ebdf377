//! Located error messages, and the batch in which they are reported.
//!
//! Nothing in this library fails with a single first error: a failure is
//! always a [`Diagnostics`] batch, which holds at least one [`Diagnostic`] and
//! keeps them in the order in which they were found.

use crate::span::Span;
use vstd::prelude::*;

verus! {

/// One error message and the place in the text that it is about.
#[derive(Debug, PartialEq)]
pub struct Diagnostic<'a> {
    pub span: Span<'a>,
    pub message: String,
}

/// What a [`Diagnostic`] says: its place and the characters of its message.
pub struct DiagnosticModel<'a> {
    pub span: Span<'a>,
    pub message: Seq<char>,
}

impl<'a> View for Diagnostic<'a> {
    type V = DiagnosticModel<'a>;

    open spec fn view(&self) -> DiagnosticModel<'a> {
        DiagnosticModel { span: self.span, message: self.message@ }
    }
}

/// The models of a sequence of diagnostics, in the same order.
pub open spec fn models<'a>(items: Seq<Diagnostic<'a>>) -> Seq<DiagnosticModel<'a>> {
    Seq::new(items.len(), |i: int| items[i]@)
}

/// The models of a sequence that grew by one are the models of the sequence,
/// grown by the model of the one.
pub proof fn lemma_models_push<'a>(items: Seq<Diagnostic<'a>>, last: Diagnostic<'a>)
    ensures
        models(items.push(last)) == models(items).push(last@),
{
    assert(models(items.push(last)) =~= models(items).push(last@));
}

/// A failed result as its model: the value where there is one, otherwise what
/// the diagnostic says.
pub open spec fn outcome<'a, T>(result: Result<T, Diagnostic<'a>>) -> Result<
    T,
    DiagnosticModel<'a>,
> {
    match result {
        Ok(value) => Ok(value),
        Err(diagnostic) => Err(diagnostic@),
    }
}

impl<'a> Diagnostic<'a> {
    /// The diagnostic that says `message` about `span`.
    pub fn new(span: Span<'a>, message: &str) -> (diagnostic: Diagnostic<'a>)
        ensures
            diagnostic@ == (DiagnosticModel { span, message: message@ }),
    {
        Diagnostic { span, message: message.to_owned() }
    }
}

/// A batch of diagnostics: ordered, and never empty.
#[derive(Debug, PartialEq)]
pub struct Diagnostics<'a> {
    items: Vec<Diagnostic<'a>>,
}

impl<'a> View for Diagnostics<'a> {
    type V = Seq<DiagnosticModel<'a>>;

    closed spec fn view(&self) -> Seq<DiagnosticModel<'a>> {
        models(self.items@)
    }
}

impl<'a> Diagnostics<'a> {
    #[verifier::type_invariant]
    closed spec fn non_empty(&self) -> bool {
        self.items@.len() > 0
    }

    /// The batch that holds `first` alone.
    pub fn single(first: Diagnostic<'a>) -> (batch: Diagnostics<'a>)
        ensures
            batch@ == seq![first@],
    {
        let mut items: Vec<Diagnostic<'a>> = Vec::new();
        items.push(first);
        assert(models(items@) =~= seq![first@]);
        Diagnostics { items }
    }

    /// The batch of `items`, in their order; `None` when there are none.
    pub fn from_vec(items: Vec<Diagnostic<'a>>) -> (batch: Option<Diagnostics<'a>>)
        ensures
            batch is Some <==> items@.len() > 0,
            batch matches Some(b) ==> b@ == models(items@),
    {
        if items.len() == 0 {
            None
        } else {
            Some(Diagnostics { items })
        }
    }

    /// Number of diagnostics in the batch; at least one.
    pub fn len(&self) -> (n: usize)
        ensures
            n == self@.len(),
            n > 0,
    {
        proof {
            use_type_invariant(self);
        }
        self.items.len()
    }

    /// The `i`-th diagnostic of the batch.
    pub fn get(&self, i: usize) -> (diagnostic: &Diagnostic<'a>)
        requires
            i < self@.len(),
        ensures
            diagnostic@ == self@[i as int],
    {
        &self.items[i]
    }

    /// The batch with `diagnostic` added at its end.
    pub fn push(self, diagnostic: Diagnostic<'a>) -> (batch: Diagnostics<'a>)
        ensures
            batch@ == self@.push(diagnostic@),
    {
        let mut items = self.items;
        items.push(diagnostic);
        assert(models(items@) =~= models(self.items@).push(diagnostic@));
        Diagnostics { items }
    }

    /// The batch with all of `later` added behind what it holds.
    pub fn append(self, later: Diagnostics<'a>) -> (batch: Diagnostics<'a>)
        ensures
            batch@ == self@ + later@,
    {
        proof {
            use_type_invariant(&self);
        }
        let mut items = self.items;
        let mut rest = later.items;
        items.append(&mut rest);
        assert(models(items@) =~= models(self.items@) + models(later.items@));
        Diagnostics { items }
    }

    /// The diagnostics of the batch, in their order.
    pub fn into_vec(self) -> (items: Vec<Diagnostic<'a>>)
        ensures
            models(items@) == self@,
            items@.len() > 0,
    {
        proof {
            use_type_invariant(&self);
        }
        self.items
    }

    /// One batch for one comment block: what tag parsing reported, then what
    /// building the entry reported. The entry is handed on only when neither
    /// step reported anything.
    pub fn collect<T>(parsing: Vec<Diagnostic<'a>>, built: Result<T, Diagnostics<'a>>) -> (result:
        Result<T, Diagnostics<'a>>)
        ensures
            result is Ok <==> parsing@.len() == 0 && built is Ok,
            result matches Ok(value) ==> built == Ok::<T, Diagnostics<'a>>(value),
            result matches Err(batch) ==> batch@.len() > 0 && batch@ == models(parsing@) + (
            match built {
                Ok(_) => Seq::empty(),
                Err(later) => later@,
            }),
    {
        match Diagnostics::from_vec(parsing) {
            None => {
                match built {
                    Ok(value) => Ok(value),
                    Err(later) => {
                        proof {
                            use_type_invariant(&later);
                            assert(later@ =~= models(parsing@) + later@);
                        }
                        Err(later)
                    },
                }
            },
            Some(batch) => {
                match built {
                    Ok(_) => {
                        assert(batch@ =~= models(parsing@) + Seq::empty());
                        Err(batch)
                    },
                    Err(later) => Err(batch.append(later)),
                }
            },
        }
    }
}

} // verus!
