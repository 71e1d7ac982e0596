//! HTTP status codes as the metrics see them: a number and its three digits.

use vstd::prelude::*;

verus! {

/// The decimal digit `d` as a character.
pub open spec fn digit_char(d: int) -> char {
    if d == 0 {
        '0'
    } else if d == 1 {
        '1'
    } else if d == 2 {
        '2'
    } else if d == 3 {
        '3'
    } else if d == 4 {
        '4'
    } else if d == 5 {
        '5'
    } else if d == 6 {
        '6'
    } else if d == 7 {
        '7'
    } else if d == 8 {
        '8'
    } else {
        '9'
    }
}

/// The three decimal digits of a status code, hundreds first.
pub open spec fn code_text(code: int) -> Seq<char> {
    seq![digit_char(code / 100), digit_char((code / 10) % 10), digit_char(code % 10)]
}

/// An HTTP status code: a whole number from 100 to 999.
#[derive(Clone, Copy, Debug)]
pub struct StatusCode {
    code: u16,
}

impl StatusCode {
    #[verifier::type_invariant]
    spec fn in_range(self) -> bool {
        100 <= self.code <= 999
    }

    /// The number this status code stands for.
    pub closed spec fn value(self) -> int {
        self.code as int
    }

    /// The status code `code`, if it lies between 100 and 999.
    pub fn from_u16(code: u16) -> (res: Option<StatusCode>)
        ensures
            res is Some <==> 100 <= code <= 999,
            res matches Some(status) ==> status.value() == code,
    {
        if 100 <= code && code <= 999 {
            Some(StatusCode { code })
        } else {
            None
        }
    }

    /// 200, the status a request has until its handling says otherwise.
    pub fn ok() -> (status: StatusCode)
        ensures
            status.value() == 200,
    {
        StatusCode { code: 200 }
    }

    /// The code as a number.
    pub fn as_u16(&self) -> (code: u16)
        ensures
            code == self.value(),
            100 <= code <= 999,
    {
        proof {
            use_type_invariant(self);
        }
        self.code
    }

    /// The code as the three digits under which it labels a series.
    pub fn label(&self) -> (text: String)
        ensures
            text@ == code_text(self.value()),
    {
        proof {
            use_type_invariant(self);
        }
        let mut text = digit_str(self.code / 100).to_owned();
        text.append(digit_str((self.code / 10) % 10));
        text.append(digit_str(self.code % 10));
        assert(text@ =~= code_text(self.value()));
        text
    }
}

/// The one-character string of a decimal digit.
fn digit_str(d: u16) -> (s: &'static str)
    requires
        d < 10,
    ensures
        s@ == seq![digit_char(d as int)],
{
    proof {
        reveal_strlit("0");
        reveal_strlit("1");
        reveal_strlit("2");
        reveal_strlit("3");
        reveal_strlit("4");
        reveal_strlit("5");
        reveal_strlit("6");
        reveal_strlit("7");
        reveal_strlit("8");
        reveal_strlit("9");
    }
    let s = if d == 0 {
        "0"
    } else if d == 1 {
        "1"
    } else if d == 2 {
        "2"
    } else if d == 3 {
        "3"
    } else if d == 4 {
        "4"
    } else if d == 5 {
        "5"
    } else if d == 6 {
        "6"
    } else if d == 7 {
        "7"
    } else if d == 8 {
        "8"
    } else {
        "9"
    };
    assert(s@ =~= seq![digit_char(d as int)]);
    s
}

} // verus!
