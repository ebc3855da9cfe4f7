//! Implementation approaches offered to the user, and the set of them.

use vstd::prelude::*;

use crate::planning::plan::{complexity_name, Complexity};
use crate::text::{
    concat_all, decimal, lemma_concat_all_full, lemma_concat_all_step, owned, push_decimal,
    str_eq,
};

verus! {

broadcast use vstd::string::group_string_axioms;

/// A possible implementation approach for a task.
///
/// The planning phase generates multiple approaches for the user to choose from,
/// each with trade-offs in terms of complexity, flexibility, and scope.
#[derive(Debug, Clone)]
pub struct Approach {
    /// Unique identifier for this approach (e.g., "approach_1")
    pub id: String,
    /// Human-readable name (e.g., "Minimal Implementation")
    pub name: String,
    /// Detailed description of what this approach entails
    pub description: String,
    /// Advantages of this approach
    pub pros: Vec<String>,
    /// Disadvantages or trade-offs
    pub cons: Vec<String>,
    /// Estimated complexity
    pub complexity: Complexity,
    /// Whether this is the recommended approach
    pub recommended: bool,
}

/// One advantage line of the display.
pub open spec fn pro_line(p: String) -> Seq<char> {
    "    + "@ + p@ + "\n"@
}

/// One disadvantage line of the display.
pub open spec fn con_line(c: String) -> Seq<char> {
    "    - "@ + c@ + "\n"@
}

/// The display of an approach shown at position `index` (counted from 0,
/// shown from 1).
pub open spec fn approach_display(a: Approach, index: nat) -> Seq<char> {
    "["@ + decimal(index + 1) + "] "@ + a.name@ + (if a.recommended {
        " (Recommended)"@
    } else {
        Seq::empty()
    }) + "\n"@ + "    "@ + a.description@ + "\n"@ + concat_all(a.pros@, |p: String| pro_line(p))
        + concat_all(a.cons@, |c: String| con_line(c)) + "    Complexity: "@ + complexity_name(
        a.complexity,
    ) + "\n"@
}

/// Appends one line made of `prefix`, `text` and a newline.
fn push_line(s: &mut String, prefix: &str, text: &str)
    ensures
        final(s)@ == old(s)@ + prefix@ + text@ + "\n"@,
{
    s.append(prefix);
    s.append(text);
    s.append("\n");
}

impl Approach {
    /// Creates a new approach with the given id and name.
    pub fn new(id: &str, name: &str) -> (r: Self)
        ensures
            r.id@ == id@,
            r.name@ == name@,
            r.description@.len() == 0,
            r.pros@.len() == 0,
            r.cons@.len() == 0,
            r.complexity == Complexity::Medium,
            !r.recommended,
    {
        Approach {
            id: owned(id),
            name: owned(name),
            description: String::new(),
            pros: Vec::new(),
            cons: Vec::new(),
            complexity: Complexity::Medium,
            recommended: false,
        }
    }

    /// Sets this approach as recommended.
    pub fn set_recommended(self) -> (r: Self)
        ensures
            r == (Approach { recommended: true, ..self }),
    {
        let mut a = self;
        a.recommended = true;
        a
    }

    /// Sets the description.
    pub fn with_description(self, desc: &str) -> (r: Self)
        ensures
            r.description@ == desc@,
            r.id == self.id,
            r.name == self.name,
            r.pros == self.pros,
            r.cons == self.cons,
            r.complexity == self.complexity,
            r.recommended == self.recommended,
    {
        let mut a = self;
        a.description = owned(desc);
        a
    }

    /// Sets the complexity.
    pub fn with_complexity(self, complexity: Complexity) -> (r: Self)
        ensures
            r == (Approach { complexity, ..self }),
    {
        let mut a = self;
        a.complexity = complexity;
        a
    }

    /// Formats the approach for display in the TUI.
    pub fn to_display_string(&self, index: usize) -> (s: String)
        requires
            index < usize::MAX,
        ensures
            s@ == approach_display(*self, index as nat),
    {
        let mut s = owned("[");
        push_decimal(&mut s, index + 1);
        s.append("] ");
        s.append(self.name.as_str());
        if self.recommended {
            s.append(" (Recommended)");
        } else {
            assert(s@ + Seq::<char>::empty() =~= s@);
        }
        s.append("\n");
        push_line(&mut s, "    ", self.description.as_str());
        let ghost head = s@;
        let mut i: usize = 0;
        while i < self.pros.len()
            invariant
                i <= self.pros@.len(),
                s@ == head + concat_all(self.pros@.take(i as int), |p: String| pro_line(p)),
            decreases self.pros.len() - i,
        {
            push_line(&mut s, "    + ", self.pros[i].as_str());
            proof {
                lemma_concat_all_step(self.pros@, |p: String| pro_line(p), i as int);
            }
            i = i + 1;
        }
        proof {
            lemma_concat_all_full(self.pros@, |p: String| pro_line(p));
        }
        let ghost head2 = s@;
        let mut j: usize = 0;
        while j < self.cons.len()
            invariant
                j <= self.cons@.len(),
                s@ == head2 + concat_all(self.cons@.take(j as int), |c: String| con_line(c)),
            decreases self.cons.len() - j,
        {
            push_line(&mut s, "    - ", self.cons[j].as_str());
            proof {
                lemma_concat_all_step(self.cons@, |c: String| con_line(c), j as int);
            }
            j = j + 1;
        }
        proof {
            lemma_concat_all_full(self.cons@, |c: String| con_line(c));
        }
        push_line(&mut s, "    Complexity: ", self.complexity.as_str());
        s
    }
}

/// A collection of possible approaches for a task.
#[derive(Debug, Clone)]
pub struct ApproachOptions {
    /// The available approaches (typically 2-3)
    pub approaches: Vec<Approach>,
    /// ID of the recommended approach (if any)
    pub recommended_id: Option<String>,
}

/// The position of the last approach of `s` that is marked recommended and
/// has the given id.
pub open spec fn last_recommended_with_id(s: Seq<Approach>, id: Seq<char>) -> Option<int>
    decreases s.len(),
{
    if s.len() == 0 {
        None
    } else if s.last().recommended && s.last().id@ == id {
        Some(s.len() - 1)
    } else {
        last_recommended_with_id(s.drop_last(), id)
    }
}

/// The recommended approach: the approach marked recommended whose id is
/// the recorded recommended id (the latest one added, if several are).
pub open spec fn recommended_approach(s: Seq<Approach>, rid: Option<String>) -> Option<Approach> {
    match rid {
        Some(id) => match last_recommended_with_id(s, id@) {
            Some(j) => Some(s[j]),
            None => None,
        },
        None => None,
    }
}

/// A found position is that of an approach of `s`.
proof fn lemma_last_recommended_in_range(s: Seq<Approach>, id: Seq<char>)
    ensures
        last_recommended_with_id(s, id) matches Some(j) ==> 0 <= j < s.len() && s[j].recommended
            && s[j].id@ == id,
    decreases s.len(),
{
    if s.len() > 0 {
        lemma_last_recommended_in_range(s.drop_last(), id);
    }
}

/// The recommended id after adding `a` to options recommending `rid`.
pub open spec fn recommended_id_after_add(rid: Option<String>, a: Approach) -> Option<Seq<char>> {
    if a.recommended {
        Some(a.id@)
    } else {
        match rid {
            Some(id) => Some(id@),
            None => None,
        }
    }
}

/// The display of approaches listed from position 0.
pub open spec fn approaches_display(s: Seq<Approach>) -> Seq<char>
    decreases s.len(),
{
    if s.len() == 0 {
        Seq::empty()
    } else {
        approaches_display(s.drop_last()) + approach_display(s.last(), (s.len() - 1) as nat)
            + "\n"@
    }
}

/// The display of a set of approaches.
pub open spec fn options_display(s: Seq<Approach>) -> Seq<char> {
    "Based on your research, here are possible approaches:\n\n"@ + approaches_display(s)
        + "Type 1-"@ + decimal(s.len()) + " to select, or describe your own approach:"@
}

impl ApproachOptions {
    /// Creates a new empty options set.
    pub fn new() -> (r: Self)
        ensures
            r.approaches@.len() == 0,
            r.recommended_id is None,
    {
        ApproachOptions { approaches: Vec::new(), recommended_id: None }
    }

    /// Adds an approach; a recommended one becomes the recommended id.
    pub fn add(&mut self, approach: Approach)
        ensures
            final(self).approaches@ == old(self).approaches@.push(approach),
            (match final(self).recommended_id {
                Some(id) => Some(id@),
                None => None,
            }) == recommended_id_after_add(old(self).recommended_id, approach),
    {
        if approach.recommended {
            self.recommended_id = Some(approach.id.clone());
        }
        self.approaches.push(approach);
    }

    /// Gets an approach by index.
    pub fn get(&self, index: usize) -> (r: Option<&Approach>)
        ensures
            index < self.approaches@.len() ==> r == Some(&self.approaches@[index as int]),
            index >= self.approaches@.len() ==> r is None,
    {
        if index < self.approaches.len() {
            Some(&self.approaches[index])
        } else {
            None
        }
    }

    /// Gets the recommended approach if one exists.
    pub fn recommended(&self) -> (r: Option<&Approach>)
        ensures
            match r {
                Some(a) => recommended_approach(self.approaches@, self.recommended_id) == Some(*a),
                None => recommended_approach(self.approaches@, self.recommended_id) is None,
            },
    {
        match &self.recommended_id {
            None => None,
            Some(id) => {
                let mut i: usize = self.approaches.len();
                assert(self.approaches@.take(i as int) =~= self.approaches@);
                while i > 0
                    invariant
                        i <= self.approaches@.len(),
                        self.recommended_id == Some(*id),
                        last_recommended_with_id(self.approaches@, id@) == last_recommended_with_id(
                            self.approaches@.take(i as int),
                            id@,
                        ),
                    decreases i,
                {
                    let ghost t = self.approaches@.take(i as int);
                    assert(t.drop_last() =~= self.approaches@.take(i - 1));
                    if self.approaches[i - 1].recommended && str_eq(
                        self.approaches[i - 1].id.as_str(),
                        id.as_str(),
                    ) {
                        return Some(&self.approaches[i - 1]);
                    }
                    i = i - 1;
                }
                proof {
                    lemma_last_recommended_in_range(self.approaches@, id@);
                }
                None
            },
        }
    }

    /// Returns the number of approaches.
    pub fn len(&self) -> (r: usize)
        ensures
            r == self.approaches@.len(),
    {
        self.approaches.len()
    }

    /// Returns true if there are no approaches.
    pub fn is_empty(&self) -> (r: bool)
        ensures
            r == (self.approaches@.len() == 0),
    {
        self.approaches.len() == 0
    }

    /// Formats all approaches for display.
    pub fn to_display_string(&self) -> (s: String)
        ensures
            s@ == options_display(self.approaches@),
    {
        let mut s = owned("Based on your research, here are possible approaches:\n\n");
        let ghost head = s@;
        let n = self.approaches.len();
        let mut i: usize = 0;
        while i < n
            invariant
                n == self.approaches@.len(),
                i <= n,
                s@ == head + approaches_display(self.approaches@.take(i as int)),
            decreases n - i,
        {
            let d = self.approaches[i].to_display_string(i);
            s.append(d.as_str());
            s.append("\n");
            let ghost t = self.approaches@.take(i + 1);
            assert(t.drop_last() =~= self.approaches@.take(i as int));
            i = i + 1;
        }
        assert(self.approaches@.take(i as int) =~= self.approaches@);
        s.append("Type 1-");
        push_decimal(&mut s, n);
        s.append(" to select, or describe your own approach:");
        s
    }
}

impl Default for ApproachOptions {
    fn default() -> (r: Self)
        ensures
            r.approaches@.len() == 0,
            r.recommended_id is None,
    {
        ApproachOptions::new()
    }
}

/// Adding a recommended approach makes it the recommended approach of the
/// options.
pub proof fn lemma_add_recommended_is_recommended(
    before: Seq<Approach>,
    a: Approach,
    after: Seq<Approach>,
    rid: Option<String>,
)
    requires
        a.recommended,
        after == before.push(a),
        rid matches Some(id) && id@ == a.id@,
    ensures
        recommended_approach(after, rid) == Some(a),
{
    assert(after.last() == a);
}

} // verus!
