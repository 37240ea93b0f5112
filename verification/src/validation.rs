use vstd::prelude::*;

verus! {

/// One reason an input field was refused.
#[derive(Debug, Clone)]
pub struct FieldError {
    /// A short machine-readable code such as `not_found`.
    pub code: String,
    /// A message for people.
    pub message: Option<String>,
    /// Named string values that go with the error.
    pub params: Vec<(String, String)>,
}

/// The refused input fields of a request, each with its reason, in the order
/// in which they were found.
#[derive(Debug, Clone)]
pub struct FieldErrors {
    pub errors: Vec<(String, FieldError)>,
}

/// The plain content of a field error: code, message and parameters.
pub open spec fn field_error_view(e: FieldError) -> (Seq<char>, Option<Seq<char>>, Seq<(Seq<char>, Seq<char>)>) {
    (
        e.code@,
        match e.message {
            Some(m) => Some(m@),
            None => None,
        },
        e.params@.map_values(|p: (String, String)| (p.0@, p.1@)),
    )
}

/// The plain content of refused fields: each field's name with its error.
pub open spec fn field_errors_view(e: FieldErrors) -> Seq<(Seq<char>, (Seq<char>, Option<Seq<char>>, Seq<(Seq<char>, Seq<char>)>))> {
    e.errors@.map_values(|f: (String, FieldError)| (f.0@, field_error_view(f.1)))
}

fn lit(s: &str) -> (r: String)
    ensures
        r@ == s@,
{
    String::from_str(s)
}

impl FieldErrors {
    /// The errors a request gets for an exchange rate that does not exist.
    pub fn rate_not_found() -> (r: FieldErrors)
        ensures
            field_errors_view(r) == seq![
                ("exchange_rate"@, ("not_found"@, None::<Seq<char>>, seq![
                    ("message"@, "exchange rate not found"@),
                ])),
            ],
    {
        let params = vec![(lit("message"), lit("exchange rate not found"))];
        let error = FieldError { code: lit("not_found"), message: None, params };
        let r = FieldErrors { errors: vec![(lit("exchange_rate"), error)] };
        assert(field_errors_view(r) =~= seq![
            ("exchange_rate"@, ("not_found"@, None::<Seq<char>>, seq![
                ("message"@, "exchange rate not found"@),
            ])),
        ]) by {
            assert(field_error_view(r.errors@[0].1).2 =~= seq![
                ("message"@, "exchange rate not found"@),
            ]);
        }
        r
    }

    /// The errors a rate request gets when the market cannot fill the amount.
    pub fn not_enough_on_market() -> (r: FieldErrors)
        ensures
            field_errors_view(r) == seq![
                ("value"@, ("not_enough_on_market"@, Some(
                    "At the moment, the exchange of this amount is not possible, please try again later."@,
                ), Seq::<(Seq<char>, Seq<char>)>::empty())),
            ],
    {
        let error = FieldError {
            code: lit("not_enough_on_market"),
            message: Some(
                lit("At the moment, the exchange of this amount is not possible, please try again later."),
            ),
            params: Vec::new(),
        };
        let r = FieldErrors { errors: vec![(lit("value"), error)] };
        assert(field_errors_view(r) =~= seq![
            ("value"@, ("not_enough_on_market"@, Some(
                "At the moment, the exchange of this amount is not possible, please try again later."@,
            ), Seq::<(Seq<char>, Seq<char>)>::empty())),
        ]) by {
            assert(field_error_view(r.errors@[0].1).2 =~= Seq::<(Seq<char>, Seq<char>)>::empty());
        }
        r
    }
}

} // verus!
