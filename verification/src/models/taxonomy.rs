use vstd::prelude::*;

verus! {

/// The source a note was taken from.
#[derive(Clone, Copy, Debug, PartialEq, Eq, Structural)]
pub enum Category {
    RustStandardLibrary,
    CratesIo,
    LeetCode,
    Coursera,
}
/// A label that can be attached to notes.
#[derive(Clone, Copy, Debug, PartialEq, Eq, Structural)]
pub enum Tag {
    Important,
    Async,
    WebDevelopment,
    DataStructures,
    Algorithms,
    MachineLearning,
    Databases,
    SystemProgramming,
    Networking,
    Security,
    OperatingSystems,
    Compilers,
    Concurrency,
    Testing,
    Debugging,
    PerformanceOptimization,
    CodeOrganization,
    BestPractices,
    DesignPatterns,
    SoftwareArchitecture,
    VersionControl,
    Documentation,
    MedicalSoftware,
    MedicalIndustry,
}
/// The text under which a category is stored.
pub open spec fn category_text(c: Category) -> Seq<char> {
    match c {
        Category::RustStandardLibrary => "Rust Standard Library"@,
        Category::CratesIo => "Crates.io"@,
        Category::LeetCode => "LeetCode"@,
        Category::Coursera => "Coursera"@,
    }
}

/// The text under which a tag is stored.
pub open spec fn tag_text(t: Tag) -> Seq<char> {
    match t {
        Tag::Important => "Important"@,
        Tag::Async => "Async"@,
        Tag::WebDevelopment => "Web Development"@,
        Tag::DataStructures => "Data Structures"@,
        Tag::Algorithms => "Algorithms"@,
        Tag::MachineLearning => "Machine Learning"@,
        Tag::Databases => "Databases"@,
        Tag::SystemProgramming => "System Programming"@,
        Tag::Networking => "Networking"@,
        Tag::Security => "Security"@,
        Tag::OperatingSystems => "Operating Systems"@,
        Tag::Compilers => "Compilers"@,
        Tag::Concurrency => "Concurrency"@,
        Tag::Testing => "Testing"@,
        Tag::Debugging => "Debugging"@,
        Tag::PerformanceOptimization => "Performance Optimization"@,
        Tag::CodeOrganization => "Code Organization"@,
        Tag::BestPractices => "Best Practices"@,
        Tag::DesignPatterns => "Design Patterns"@,
        Tag::SoftwareArchitecture => "Software Architecture"@,
        Tag::VersionControl => "Version Control"@,
        Tag::Documentation => "Documentation"@,
        Tag::MedicalSoftware => "Medical Software"@,
        Tag::MedicalIndustry => "Medical Industry"@,
    }
}

proof fn reveal_tag_texts() ensures
    tag_text(Tag::Important) =~= seq!['I', 'm', 'p', 'o', 'r', 't', 'a', 'n', 't'],
    tag_text(Tag::Async) =~= seq!['A', 's', 'y', 'n', 'c'],
    tag_text(Tag::WebDevelopment) =~= seq!['W', 'e', 'b', ' ', 'D', 'e', 'v', 'e', 'l', 'o', 'p', 'm', 'e', 'n', 't'],
    tag_text(Tag::DataStructures) =~= seq!['D', 'a', 't', 'a', ' ', 'S', 't', 'r', 'u', 'c', 't', 'u', 'r', 'e', 's'],
    tag_text(Tag::Algorithms) =~= seq!['A', 'l', 'g', 'o', 'r', 'i', 't', 'h', 'm', 's'],
    tag_text(Tag::MachineLearning) =~= seq!['M', 'a', 'c', 'h', 'i', 'n', 'e', ' ', 'L', 'e', 'a', 'r', 'n', 'i', 'n', 'g'],
    tag_text(Tag::Databases) =~= seq!['D', 'a', 't', 'a', 'b', 'a', 's', 'e', 's'],
    tag_text(Tag::SystemProgramming) =~= seq!['S', 'y', 's', 't', 'e', 'm', ' ', 'P', 'r', 'o', 'g', 'r', 'a', 'm', 'm', 'i', 'n', 'g'],
    tag_text(Tag::Networking) =~= seq!['N', 'e', 't', 'w', 'o', 'r', 'k', 'i', 'n', 'g'],
    tag_text(Tag::Security) =~= seq!['S', 'e', 'c', 'u', 'r', 'i', 't', 'y'],
    tag_text(Tag::OperatingSystems) =~= seq!['O', 'p', 'e', 'r', 'a', 't', 'i', 'n', 'g', ' ', 'S', 'y', 's', 't', 'e', 'm', 's'],
    tag_text(Tag::Compilers) =~= seq!['C', 'o', 'm', 'p', 'i', 'l', 'e', 'r', 's'],
    tag_text(Tag::Concurrency) =~= seq!['C', 'o', 'n', 'c', 'u', 'r', 'r', 'e', 'n', 'c', 'y'],
    tag_text(Tag::Testing) =~= seq!['T', 'e', 's', 't', 'i', 'n', 'g'],
    tag_text(Tag::Debugging) =~= seq!['D', 'e', 'b', 'u', 'g', 'g', 'i', 'n', 'g'],
    tag_text(Tag::PerformanceOptimization) =~= seq!['P', 'e', 'r', 'f', 'o', 'r', 'm', 'a', 'n', 'c', 'e', ' ', 'O', 'p', 't', 'i', 'm', 'i', 'z', 'a', 't', 'i', 'o', 'n'],
    tag_text(Tag::CodeOrganization) =~= seq!['C', 'o', 'd', 'e', ' ', 'O', 'r', 'g', 'a', 'n', 'i', 'z', 'a', 't', 'i', 'o', 'n'],
    tag_text(Tag::BestPractices) =~= seq!['B', 'e', 's', 't', ' ', 'P', 'r', 'a', 'c', 't', 'i', 'c', 'e', 's'],
    tag_text(Tag::DesignPatterns) =~= seq!['D', 'e', 's', 'i', 'g', 'n', ' ', 'P', 'a', 't', 't', 'e', 'r', 'n', 's'],
    tag_text(Tag::SoftwareArchitecture) =~= seq!['S', 'o', 'f', 't', 'w', 'a', 'r', 'e', ' ', 'A', 'r', 'c', 'h', 'i', 't', 'e', 'c', 't', 'u', 'r', 'e'],
    tag_text(Tag::VersionControl) =~= seq!['V', 'e', 'r', 's', 'i', 'o', 'n', ' ', 'C', 'o', 'n', 't', 'r', 'o', 'l'],
    tag_text(Tag::Documentation) =~= seq!['D', 'o', 'c', 'u', 'm', 'e', 'n', 't', 'a', 't', 'i', 'o', 'n'],
    tag_text(Tag::MedicalSoftware) =~= seq!['M', 'e', 'd', 'i', 'c', 'a', 'l', ' ', 'S', 'o', 'f', 't', 'w', 'a', 'r', 'e'],
    tag_text(Tag::MedicalIndustry) =~= seq!['M', 'e', 'd', 'i', 'c', 'a', 'l', ' ', 'I', 'n', 'd', 'u', 's', 't', 'r', 'y'],
{
    reveal_strlit("Important");
    reveal_strlit("Async");
    reveal_strlit("Web Development");
    reveal_strlit("Data Structures");
    reveal_strlit("Algorithms");
    reveal_strlit("Machine Learning");
    reveal_strlit("Databases");
    reveal_strlit("System Programming");
    reveal_strlit("Networking");
    reveal_strlit("Security");
    reveal_strlit("Operating Systems");
    reveal_strlit("Compilers");
    reveal_strlit("Concurrency");
    reveal_strlit("Testing");
    reveal_strlit("Debugging");
    reveal_strlit("Performance Optimization");
    reveal_strlit("Code Organization");
    reveal_strlit("Best Practices");
    reveal_strlit("Design Patterns");
    reveal_strlit("Software Architecture");
    reveal_strlit("Version Control");
    reveal_strlit("Documentation");
    reveal_strlit("Medical Software");
    reveal_strlit("Medical Industry");
}

/// Two different tags are stored under different texts.
pub proof fn lemma_tag_text_injective(a: Tag, b: Tag)
    ensures
        tag_text(a) == tag_text(b) ==> a == b,
{
    reveal_tag_texts();
    if tag_text(a) == tag_text(b) && a != b {
        assert(tag_text(a).len() == tag_text(b).len());
        assert(tag_text(a)[0] == tag_text(b)[0]);
        assert(tag_text(a)[1] == tag_text(b)[1]);
        assert(tag_text(a)[5] == tag_text(b)[5]);
        assert(tag_text(a)[6] == tag_text(b)[6]);
    }
}

/// Every tag, in declaration order.
pub open spec fn all_tags() -> Seq<Tag> {
    seq![
        Tag::Important,
        Tag::Async,
        Tag::WebDevelopment,
        Tag::DataStructures,
        Tag::Algorithms,
        Tag::MachineLearning,
        Tag::Databases,
        Tag::SystemProgramming,
        Tag::Networking,
        Tag::Security,
        Tag::OperatingSystems,
        Tag::Compilers,
        Tag::Concurrency,
        Tag::Testing,
        Tag::Debugging,
        Tag::PerformanceOptimization,
        Tag::CodeOrganization,
        Tag::BestPractices,
        Tag::DesignPatterns,
        Tag::SoftwareArchitecture,
        Tag::VersionControl,
        Tag::Documentation,
        Tag::MedicalSoftware,
        Tag::MedicalIndustry,
    ]
}

/// Each of `parts` in order, with `sep` between neighbours.
pub open spec fn joined(parts: Seq<Seq<char>>, sep: Seq<char>) -> Seq<char>
    decreases parts.len(),
{
    if parts.len() == 0 {
        Seq::empty()
    } else if parts.len() == 1 {
        parts[0]
    } else {
        joined(parts.drop_last(), sep) + sep + parts.last()
    }
}

/// The stored texts of all tags, in declaration order.
pub open spec fn all_tag_texts() -> Seq<Seq<char>> {
    all_tags().map_values(|t: Tag| tag_text(t))
}

impl Category {
    /// The text under which this category is stored.
    pub fn to_value(&self) -> (s: String)
        ensures
            s@ == category_text(*self),
    {
        match self {
            Category::RustStandardLibrary => String::from_str("Rust Standard Library"),
            Category::CratesIo => String::from_str("Crates.io"),
            Category::LeetCode => String::from_str("LeetCode"),
            Category::Coursera => String::from_str("Coursera"),
        }
    }
}

impl Tag {
    /// The text under which this tag is stored.
    pub fn to_value(&self) -> (s: String)
        ensures
            s@ == tag_text(*self),
    {
        match self {
            Tag::Important => String::from_str("Important"),
            Tag::Async => String::from_str("Async"),
            Tag::WebDevelopment => String::from_str("Web Development"),
            Tag::DataStructures => String::from_str("Data Structures"),
            Tag::Algorithms => String::from_str("Algorithms"),
            Tag::MachineLearning => String::from_str("Machine Learning"),
            Tag::Databases => String::from_str("Databases"),
            Tag::SystemProgramming => String::from_str("System Programming"),
            Tag::Networking => String::from_str("Networking"),
            Tag::Security => String::from_str("Security"),
            Tag::OperatingSystems => String::from_str("Operating Systems"),
            Tag::Compilers => String::from_str("Compilers"),
            Tag::Concurrency => String::from_str("Concurrency"),
            Tag::Testing => String::from_str("Testing"),
            Tag::Debugging => String::from_str("Debugging"),
            Tag::PerformanceOptimization => String::from_str("Performance Optimization"),
            Tag::CodeOrganization => String::from_str("Code Organization"),
            Tag::BestPractices => String::from_str("Best Practices"),
            Tag::DesignPatterns => String::from_str("Design Patterns"),
            Tag::SoftwareArchitecture => String::from_str("Software Architecture"),
            Tag::VersionControl => String::from_str("Version Control"),
            Tag::Documentation => String::from_str("Documentation"),
            Tag::MedicalSoftware => String::from_str("Medical Software"),
            Tag::MedicalIndustry => String::from_str("Medical Industry"),
        }
    }

    /// Every tag, in declaration order.
    pub fn iter() -> (v: Vec<Tag>)
        ensures
            v@ == all_tags(),
    {
        vec![
            Tag::Important,
            Tag::Async,
            Tag::WebDevelopment,
            Tag::DataStructures,
            Tag::Algorithms,
            Tag::MachineLearning,
            Tag::Databases,
            Tag::SystemProgramming,
            Tag::Networking,
            Tag::Security,
            Tag::OperatingSystems,
            Tag::Compilers,
            Tag::Concurrency,
            Tag::Testing,
            Tag::Debugging,
            Tag::PerformanceOptimization,
            Tag::CodeOrganization,
            Tag::BestPractices,
            Tag::DesignPatterns,
            Tag::SoftwareArchitecture,
            Tag::VersionControl,
            Tag::Documentation,
            Tag::MedicalSoftware,
            Tag::MedicalIndustry,
        ]
    }

    /// The tag stored under `text`, if there is one.
    pub fn from_value(text: &str) -> (r: Option<Tag>)
        ensures
            match r {
                Some(t) => tag_text(t) == text@,
                None => forall|t: Tag| tag_text(t) != text@,
            },
    {
        let wanted = String::from_str(text);
        let all = Tag::iter();
        let mut i: usize = 0;
        while i < all.len()
            invariant
                all@ == all_tags(),
                wanted@ == text@,
                i <= all.len(),
                forall|j: int| 0 <= j < i ==> tag_text(#[trigger] all_tags()[j]) != text@,
            decreases all.len() - i,
        {
            let t = all[i];
            if t.to_value() == wanted {
                return Some(t);
            }
            i = i + 1;
        }
        proof {
            assert forall|t: Tag| tag_text(t) != text@ by {
                lemma_all_tags_complete(t);
            }
        }
        None
    }

    /// The stored texts of all tags, separated by a comma and a space.
    pub fn valid_values() -> (s: String)
        ensures
            s@ == joined(all_tag_texts(), ", "@),
    {
        let all = Tag::iter();
        let mut out = String::new();
        let mut i: usize = 0;
        while i < all.len()
            invariant
                all@ == all_tags(),
                i <= all.len(),
                out@ == joined(all_tag_texts().take(i as int), ", "@),
            decreases all.len() - i,
        {
            let text = all[i].to_value();
            proof {
                assert(all_tag_texts().take(i + 1).drop_last() =~= all_tag_texts().take(i as int));
            }
            if i > 0 {
                out.append(", ");
            }
            out.append(text.as_str());
            i = i + 1;
            proof {
                assert(all_tag_texts().take(i as int).last() == tag_text(all_tags()[i - 1]));
            }
        }
        proof {
            assert(all_tag_texts().take(all.len() as int) =~= all_tag_texts());
        }
        out
    }
}

/// Every tag occurs in the list of all tags.
pub proof fn lemma_all_tags_complete(t: Tag)
    ensures
        exists|j: int| 0 <= j < all_tags().len() && #[trigger] all_tags()[j] == t,
{
    match t {
        Tag::Important => assert(all_tags()[0] == t),
        Tag::Async => assert(all_tags()[1] == t),
        Tag::WebDevelopment => assert(all_tags()[2] == t),
        Tag::DataStructures => assert(all_tags()[3] == t),
        Tag::Algorithms => assert(all_tags()[4] == t),
        Tag::MachineLearning => assert(all_tags()[5] == t),
        Tag::Databases => assert(all_tags()[6] == t),
        Tag::SystemProgramming => assert(all_tags()[7] == t),
        Tag::Networking => assert(all_tags()[8] == t),
        Tag::Security => assert(all_tags()[9] == t),
        Tag::OperatingSystems => assert(all_tags()[10] == t),
        Tag::Compilers => assert(all_tags()[11] == t),
        Tag::Concurrency => assert(all_tags()[12] == t),
        Tag::Testing => assert(all_tags()[13] == t),
        Tag::Debugging => assert(all_tags()[14] == t),
        Tag::PerformanceOptimization => assert(all_tags()[15] == t),
        Tag::CodeOrganization => assert(all_tags()[16] == t),
        Tag::BestPractices => assert(all_tags()[17] == t),
        Tag::DesignPatterns => assert(all_tags()[18] == t),
        Tag::SoftwareArchitecture => assert(all_tags()[19] == t),
        Tag::VersionControl => assert(all_tags()[20] == t),
        Tag::Documentation => assert(all_tags()[21] == t),
        Tag::MedicalSoftware => assert(all_tags()[22] == t),
        Tag::MedicalIndustry => assert(all_tags()[23] == t),
    }
}

} // verus!
