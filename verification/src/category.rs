//! The closed set of product categories and the labels that name them.

use vstd::prelude::*;

verus! {

/// The groups into which products are placed. The order of the variants is the
/// order of their tags in persisted records and must not change.
#[derive(Clone, Copy, Debug, PartialEq, Eq, Structural)]
pub enum Category {
    Food,
    Household,
    PreparedFood,
    Groceries,
    Snacks,
    BreadAndBreadSpreads,
    SkinCareProducts,
    Toiletries,
    Others,
}

impl Category {
    /// The tag that stands for the category in a persisted record: its place
    /// in the order of the variants, counted from zero.
    pub open spec fn tag_of(self) -> u8 {
        match self {
            Category::Food => 0,
            Category::Household => 1,
            Category::PreparedFood => 2,
            Category::Groceries => 3,
            Category::Snacks => 4,
            Category::BreadAndBreadSpreads => 5,
            Category::SkinCareProducts => 6,
            Category::Toiletries => 7,
            Category::Others => 8,
        }
    }

    /// The category that a tag stands for, if it stands for one.
    pub open spec fn of_tag(tag: u8) -> Option<Category> {
        if tag == 0 {
            Some(Category::Food)
        } else if tag == 1 {
            Some(Category::Household)
        } else if tag == 2 {
            Some(Category::PreparedFood)
        } else if tag == 3 {
            Some(Category::Groceries)
        } else if tag == 4 {
            Some(Category::Snacks)
        } else if tag == 5 {
            Some(Category::BreadAndBreadSpreads)
        } else if tag == 6 {
            Some(Category::SkinCareProducts)
        } else if tag == 7 {
            Some(Category::Toiletries)
        } else if tag == 8 {
            Some(Category::Others)
        } else {
            None
        }
    }

    /// The tag of the category in a persisted record.
    pub fn tag(&self) -> (t: u8)
        ensures
            t == self.tag_of(),
            Category::of_tag(t) == Some(*self),
    {
        match self {
            Category::Food => 0,
            Category::Household => 1,
            Category::PreparedFood => 2,
            Category::Groceries => 3,
            Category::Snacks => 4,
            Category::BreadAndBreadSpreads => 5,
            Category::SkinCareProducts => 6,
            Category::Toiletries => 7,
            Category::Others => 8,
        }
    }

    /// Reads a category back from its tag. A tag over eight stands for none.
    pub fn from_tag(tag: u8) -> (r: Option<Category>)
        ensures
            r == Category::of_tag(tag),
            r is Some <==> tag <= 8,
            r is Some ==> r->0.tag_of() == tag,
    {
        match tag {
            0 => Some(Category::Food),
            1 => Some(Category::Household),
            2 => Some(Category::PreparedFood),
            3 => Some(Category::Groceries),
            4 => Some(Category::Snacks),
            5 => Some(Category::BreadAndBreadSpreads),
            6 => Some(Category::SkinCareProducts),
            7 => Some(Category::Toiletries),
            8 => Some(Category::Others),
            _ => None,
        }
    }
}

/// The category that a label names. Labels are matched exactly and with
/// case; every label that is not one of the six listed here names `Others`.
pub open spec fn classify(label: Seq<char>) -> Category {
    if label == "food"@ {
        Category::Food
    } else if label == "house_hold"@ {
        Category::Household
    } else if label == "PreparedFood"@ {
        Category::PreparedFood
    } else if label == "groceries"@ {
        Category::Groceries
    } else if label == "toileteries"@ {
        Category::Toiletries
    } else if label == "snacks"@ {
        Category::Snacks
    } else {
        Category::Others
    }
}

/// Maps a category label to its category.
pub fn get_category(category: String) -> (r: Category)
    ensures
        r == classify(category@),
{
    if category.eq(&"food".to_owned()) {
        Category::Food
    } else if category.eq(&"house_hold".to_owned()) {
        Category::Household
    } else if category.eq(&"PreparedFood".to_owned()) {
        Category::PreparedFood
    } else if category.eq(&"groceries".to_owned()) {
        Category::Groceries
    } else if category.eq(&"toileteries".to_owned()) {
        Category::Toiletries
    } else if category.eq(&"snacks".to_owned()) {
        Category::Snacks
    } else {
        Category::Others
    }
}

/// The classifier is defined on every label, and what it gives is one of the
/// nine categories; the same label always names the same category.
pub proof fn lemma_classify_total(label: Seq<char>)
    ensures
        classify(label) == classify(label),
        classify(label) is Food || classify(label) is Household
            || classify(label) is PreparedFood || classify(label) is Groceries
            || classify(label) is Snacks || classify(label) is BreadAndBreadSpreads
            || classify(label) is SkinCareProducts || classify(label) is Toiletries
            || classify(label) is Others,
        classify(label).tag_of() <= 8,
        Category::of_tag(classify(label).tag_of()) == Some(classify(label)),
{
}

/// The lengths of the six labels that name a category of their own, and the
/// first letter of the shortest.
proof fn lemma_label_shapes()
    ensures
        "food"@.len() == 4,
        "house_hold"@.len() == 10,
        "PreparedFood"@.len() == 12,
        "groceries"@.len() == 9,
        "toileteries"@.len() == 11,
        "snacks"@.len() == 6,
        "food"@[0] == 'f',
{
    reveal_strlit("food");
    reveal_strlit("house_hold");
    reveal_strlit("PreparedFood");
    reveal_strlit("groceries");
    reveal_strlit("toileteries");
    reveal_strlit("snacks");
}

/// The six labels that name a category of their own, each with its category.
/// The label of toiletries is spelled as stored inputs spell it.
pub proof fn lemma_classify_known_labels()
    ensures
        classify("food"@) == Category::Food,
        classify("house_hold"@) == Category::Household,
        classify("PreparedFood"@) == Category::PreparedFood,
        classify("groceries"@) == Category::Groceries,
        classify("toileteries"@) == Category::Toiletries,
        classify("snacks"@) == Category::Snacks,
{
    lemma_label_shapes();
}

/// Every label but those six names `Others`: among them the empty label, the
/// labels written for the two categories that no label names, and a known
/// label in another case or spelling.
pub proof fn lemma_classify_other_labels(label: Seq<char>)
    ensures
        label != "food"@ && label != "house_hold"@ && label != "PreparedFood"@
            && label != "groceries"@ && label != "toileteries"@ && label != "snacks"@
            ==> classify(label) == Category::Others,
        classify(""@) == Category::Others,
        classify("bread_and_bread_spreads"@) == Category::Others,
        classify("skin_care_products"@) == Category::Others,
        classify("toiletries"@) == Category::Others,
        classify("Food"@) == Category::Others,
{
    lemma_label_shapes();
    reveal_strlit("");
    reveal_strlit("bread_and_bread_spreads");
    reveal_strlit("skin_care_products");
    reveal_strlit("toiletries");
    reveal_strlit("Food");
    assert(""@.len() == 0);
    assert("bread_and_bread_spreads"@.len() == 23);
    assert("skin_care_products"@.len() == 18);
    assert("toiletries"@.len() == 10);
    assert("toiletries"@[0] == 't' && "house_hold"@[0] == 'h') by {
        reveal_strlit("house_hold");
    }
    assert("Food"@.len() == 4 && "Food"@[0] == 'F');
}

} // verus!
