//! The cookie as this library models it, and the reserved flash cookie name.

use vstd::prelude::*;

verus! {

/// The reserved name of the flash cookie.
pub open spec fn spec_flash_cookie_name() -> Seq<char> {
    "_flash"@
}

/// Returns the reserved flash cookie name, `_flash`.
pub fn flash_cookie_name() -> (r: String)
    ensures
        r@ == spec_flash_cookie_name(),
{
    "_flash".to_owned()
}

/// Mathematical view of a cookie: its name, its value, its path, and its
/// expiry instant in seconds since the Unix epoch, where one is set.
pub ghost struct CookieVal {
    pub name: Seq<char>,
    pub value: Seq<char>,
    pub path: Option<Seq<char>>,
    pub expires: Option<int>,
}

/// The slice of a cookie that the flash protocol reads and writes: name,
/// value, optional path, and optional expiry instant in seconds since the
/// Unix epoch. Attributes a real cookie may carry besides these play no part
/// in the protocol.
pub struct FlashCookie {
    /// The cookie's name.
    pub name: String,
    /// The cookie's value.
    pub value: String,
    /// The path the cookie is visible under, if one is set.
    pub path: Option<String>,
    /// The cookie's expiry instant in seconds since the Unix epoch, if set.
    pub expires: Option<i64>,
}

impl View for FlashCookie {
    type V = CookieVal;

    open spec fn view(&self) -> CookieVal {
        CookieVal {
            name: self.name@,
            value: self.value@,
            path: match self.path {
                Some(p) => Some(p@),
                None => None,
            },
            expires: match self.expires {
                Some(e) => Some(e as int),
                None => None,
            },
        }
    }
}

/// The cookie that carries a freshly set flash message: named `_flash`,
/// holding `data`, visible from the application root, with no expiry.
pub open spec fn spec_flash_cookie(data: Seq<char>) -> CookieVal {
    CookieVal {
        name: spec_flash_cookie_name(),
        value: data,
        path: Some("/"@),
        expires: None,
    }
}

/// The directive that clears the flash cookie: an empty value and an expiry
/// at the Unix epoch, an instant in the past, so the client discards it.
pub open spec fn spec_removal_cookie() -> CookieVal {
    CookieVal {
        name: spec_flash_cookie_name(),
        value: Seq::<char>::empty(),
        path: Some("/"@),
        expires: Some(0),
    }
}

impl FlashCookie {
    /// Builds the cookie that carries a freshly set flash message.
    pub fn flash(data: String) -> (r: FlashCookie)
        ensures
            r@ == spec_flash_cookie(data@),
    {
        FlashCookie {
            name: flash_cookie_name(),
            value: data,
            path: Some("/".to_owned()),
            expires: None,
        }
    }

    /// Builds the directive that clears the flash cookie.
    pub fn removal() -> (r: FlashCookie)
        ensures
            r@ == spec_removal_cookie(),
    {
        FlashCookie {
            name: flash_cookie_name(),
            value: String::new(),
            path: Some("/".to_owned()),
            expires: Some(0),
        }
    }
}

/// The views of a sequence of cookies, in order.
pub open spec fn cookie_views(cookies: Seq<FlashCookie>) -> Seq<CookieVal> {
    cookies.map_values(|c: FlashCookie| c@)
}

/// The first cookie bearing `name`, if any: a request or response carries its
/// cookies in order, and lookup by name takes the earliest.
pub open spec fn first_named(cookies: Seq<CookieVal>, name: Seq<char>) -> Option<CookieVal>
    decreases cookies.len(),
{
    if cookies.len() == 0 {
        None
    } else if cookies.first().name == name {
        Some(cookies.first())
    } else {
        first_named(cookies.drop_first(), name)
    }
}

/// How many cookies of the sequence bear `name`.
pub open spec fn count_named(cookies: Seq<CookieVal>, name: Seq<char>) -> nat
    decreases cookies.len(),
{
    if cookies.len() == 0 {
        0
    } else {
        (if cookies.first().name == name {
            1nat
        } else {
            0nat
        }) + count_named(cookies.drop_first(), name)
    }
}

/// A name is found among some cookies exactly when it is borne at least once.
pub proof fn lemma_first_named_none_iff_count_zero(cookies: Seq<CookieVal>, name: Seq<char>)
    ensures
        first_named(cookies, name) is None <==> count_named(cookies, name) == 0,
    decreases cookies.len(),
{
    if cookies.len() > 0 {
        lemma_first_named_none_iff_count_zero(cookies.drop_first(), name);
    }
}

/// Appending a cookie leaves every earlier cookie ahead of it: the count grows
/// by one exactly when the new cookie bears the name, and the first match
/// changes only where there was none.
pub proof fn lemma_named_push(cookies: Seq<CookieVal>, c: CookieVal, name: Seq<char>)
    ensures
        count_named(cookies.push(c), name) == count_named(cookies, name) + (if c.name == name {
            1nat
        } else {
            0nat
        }),
        first_named(cookies.push(c), name) == (if first_named(cookies, name) is Some {
            first_named(cookies, name)
        } else if c.name == name {
            Some(c)
        } else {
            None::<CookieVal>
        }),
    decreases cookies.len(),
{
    if cookies.len() == 0 {
        assert(cookies.push(c).drop_first() =~= Seq::<CookieVal>::empty());
    } else {
        assert(cookies.push(c).first() == cookies.first());
        assert(cookies.push(c).drop_first() =~= cookies.drop_first().push(c));
        lemma_named_push(cookies.drop_first(), c, name);
    }
}

/// Where the cookie at `i` is the earliest to bear `name`, it is the one that
/// lookup by `name` finds.
proof fn lemma_first_named_at(cookies: Seq<CookieVal>, name: Seq<char>, i: int)
    requires
        0 <= i < cookies.len(),
        cookies[i].name == name,
        forall|j: int| 0 <= j < i ==> cookies[j].name != name,
    ensures
        first_named(cookies, name) == Some(cookies[i]),
    decreases i,
{
    if i > 0 {
        lemma_first_named_at(cookies.drop_first(), name, i - 1);
    }
}

/// Where no cookie bears `name`, lookup finds none.
proof fn lemma_first_named_absent(cookies: Seq<CookieVal>, name: Seq<char>)
    requires
        forall|j: int| 0 <= j < cookies.len() ==> cookies[j].name != name,
    ensures
        first_named(cookies, name) is None,
    decreases cookies.len(),
{
    if cookies.len() > 0 {
        lemma_first_named_absent(cookies.drop_first(), name);
    }
}

/// Finds the position of the first cookie named `name`, if any.
pub fn find_cookie(cookies: &Vec<FlashCookie>, name: &String) -> (r: Option<usize>)
    ensures
        match r {
            Some(i) => i < cookies.len() && first_named(cookie_views(cookies@), name@) == Some(
                cookies@[i as int]@,
            ),
            None => first_named(cookie_views(cookies@), name@) is None,
        },
{
    let mut i: usize = 0;
    while i < cookies.len()
        invariant
            i <= cookies.len(),
            forall|j: int| 0 <= j < i ==> cookies@[j]@.name != name@,
        decreases cookies.len() - i,
    {
        if cookies[i].name == *name {
            proof {
                lemma_first_named_at(cookie_views(cookies@), name@, i as int);
            }
            return Some(i);
        }
        i += 1;
    }
    proof {
        lemma_first_named_absent(cookie_views(cookies@), name@);
    }
    None
}

} // verus!
