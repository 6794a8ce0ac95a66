//! Categories: the named groupings that settings refer to.

use vstd::prelude::*;

verus! {

/// The name of a category.
pub type CategoryName = String;

/// The name of a subcategory.
pub type SubCategoryName = String;

/// A named grouping of items, with the names of its subcategories in
/// order.
#[derive(Debug, Clone, PartialEq)]
pub struct Category {
    pub name: CategoryName,
    pub subcategories: Vec<SubCategoryName>,
}

/// The mathematical value of a [`Category`].
pub struct CategoryView {
    pub name: Seq<char>,
    pub subcategories: Seq<Seq<char>>,
}

impl DeepView for Category {
    type V = CategoryView;

    open spec fn deep_view(&self) -> CategoryView {
        CategoryView { name: self.name@, subcategories: self.subcategories.deep_view() }
    }
}

impl View for Category {
    type V = CategoryView;

    open spec fn view(&self) -> CategoryView {
        self.deep_view()
    }
}

impl Default for Category {
    /// A category without a name and without subcategories.
    fn default() -> (category: Category)
        ensures
            category@ == (CategoryView { name: Seq::empty(), subcategories: Seq::empty() }),
    {
        let category = Category { name: String::new(), subcategories: Vec::new() };
        assert(category.subcategories.deep_view() =~= Seq::<Seq<char>>::empty());
        category
    }
}

} // verus!
