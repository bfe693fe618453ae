use vstd::prelude::*;

verus! {

/// The domain of a challenge.
#[derive(Debug, Clone, Copy, PartialEq, Eq, Structural)]
pub enum Category {
    Web,
    Pwn,
    Crypto,
    Misc,
    Reverse,
}

/// The literal name of a category, as the manifest writes it.
pub open spec fn category_name(c: Category) -> Seq<char> {
    match c {
        Category::Web => "Web"@,
        Category::Pwn => "Pwn"@,
        Category::Crypto => "Crypto"@,
        Category::Misc => "Misc"@,
        Category::Reverse => "Reverse"@,
    }
}

/// The category whose literal name is exactly `s` (case-sensitive), if any.
pub open spec fn category_named(s: Seq<char>) -> Option<Category> {
    if s == "Web"@ {
        Some(Category::Web)
    } else if s == "Pwn"@ {
        Some(Category::Pwn)
    } else if s == "Crypto"@ {
        Some(Category::Crypto)
    } else if s == "Misc"@ {
        Some(Category::Misc)
    } else if s == "Reverse"@ {
        Some(Category::Reverse)
    } else {
        None
    }
}

/// Whether two texts hold the same characters.
pub fn text_equals(a: &str, b: &str) -> (r: bool)
    ensures
        r == (a@ == b@),
{
    let n = a.unicode_len();
    if n != b.unicode_len() {
        return false;
    }
    let mut i: usize = 0;
    while i < n
        invariant
            n == a@.len(),
            n == b@.len(),
            0 <= i <= n,
            forall|j: int| 0 <= j < i ==> a@[j] == b@[j],
        decreases n - i,
    {
        if a.get_char(i) != b.get_char(i) {
            return false;
        }
        i = i + 1;
    }
    assert(a@ =~= b@);
    true
}

impl Category {
    /// The literal name of the category.
    pub fn as_str(&self) -> (r: &'static str)
        ensures
            r@ == category_name(*self),
    {
        match self {
            Category::Web => "Web",
            Category::Pwn => "Pwn",
            Category::Crypto => "Crypto",
            Category::Misc => "Misc",
            Category::Reverse => "Reverse",
        }
    }

    /// The category with the literal name `s`; `None` for any other text.
    pub fn from_name(s: &str) -> (r: Option<Category>)
        ensures
            r == category_named(s@),
    {
        if text_equals(s, "Web") {
            Some(Category::Web)
        } else if text_equals(s, "Pwn") {
            Some(Category::Pwn)
        } else if text_equals(s, "Crypto") {
            Some(Category::Crypto)
        } else if text_equals(s, "Misc") {
            Some(Category::Misc)
        } else if text_equals(s, "Reverse") {
            Some(Category::Reverse)
        } else {
            None
        }
    }

    /// Every category, in declaration order.
    pub fn all() -> (r: Vec<Category>)
        ensures
            r@ == seq![
                Category::Web,
                Category::Pwn,
                Category::Crypto,
                Category::Misc,
                Category::Reverse,
            ],
    {
        vec![Category::Web, Category::Pwn, Category::Crypto, Category::Misc, Category::Reverse]
    }
}

/// Reading a category's name back gives the same category.
pub proof fn lemma_category_name_round_trip(c: Category)
    ensures
        category_named(category_name(c)) == Some(c),
{
    reveal_strlit("Web");
    reveal_strlit("Pwn");
    reveal_strlit("Crypto");
    reveal_strlit("Misc");
    reveal_strlit("Reverse");
    assert("Web"@[0] != "Pwn"@[0]);
    assert("Web"@.len() == 3 && "Pwn"@.len() == 3 && "Crypto"@.len() == 6);
    assert("Misc"@.len() == 4 && "Reverse"@.len() == 7);
}

/// A challenge's declared configuration, as its manifest states it.
#[derive(Debug, Clone)]
pub struct ChallengeDockerConfig {
    pub name: String,
    pub author: String,
    pub category: Category,
    pub tags: Vec<String>,
    pub description: String,
    pub attachments: Vec<String>,
    pub is_dynamic_flag: bool,
    pub points: i32,
}

} // verus!
