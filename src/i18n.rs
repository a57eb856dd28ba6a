//! The table of loaded languages: each language's name and its JSON content.

use vstd::prelude::*;

verus! {

#[verifier::external_type_specification]
#[verifier::external_body]
pub struct ExValue(serde_json::Value);

/// Why a language could not be added.
#[derive(Clone, Copy, Debug, PartialEq, Eq, Structural)]
pub enum LanguageClientError {
    /// A language of that name is loaded already.
    LanguageAlreadyDefined,
}

/// Whether `langs` holds a language named `name`.
pub open spec fn has_lang(langs: Seq<(String, serde_json::Value)>, name: Seq<char>) -> bool {
    exists|i: int| 0 <= i < langs.len() && (#[trigger] langs[i]).0@ == name
}

/// The loaded languages, each name once.
pub struct Languages {
    pub langs: Vec<(String, serde_json::Value)>,
}

impl Languages {
    /// No two entries have the same name.
    pub open spec fn wf(&self) -> bool {
        forall|i: int, j: int|
            0 <= i < j < self.langs@.len() ==> (#[trigger] self.langs@[i]).0@ != (
            #[trigger] self.langs@[j]).0@
    }

    /// No language loaded.
    pub fn new() -> (r: Languages)
        ensures
            r.langs@.len() == 0,
            r.wf(),
    {
        Languages { langs: Vec::new() }
    }

    /// Adds the language `name` with `content`. A language of that name is
    /// replaced when `force` is set and refused otherwise.
    pub fn add_lang(&mut self, name: &String, content: serde_json::Value, force: bool) -> (r: Result<(), LanguageClientError>)
        requires
            old(self).wf(),
        ensures
            final(self).wf(),
            r is Err <==> (has_lang(old(self).langs@, name@) && !force),
            r is Err ==> final(self).langs@ == old(self).langs@,
            !has_lang(old(self).langs@, name@) ==> final(self).langs@ == old(self).langs@.push(
                (*name, content),
            ),
            has_lang(old(self).langs@, name@) && force ==> exists|i: int|
                0 <= i < old(self).langs@.len() && (#[trigger] old(self).langs@[i]).0@ == name@
                    && final(self).langs@ == old(self).langs@.update(i, (*name, content)),
    {
        let n = self.langs.len();
        let mut i: usize = 0;
        while i < n
            invariant
                n == self.langs@.len(),
                i <= n,
                self.langs@ == old(self).langs@,
                old(self).wf(),
                forall|j: int| 0 <= j < i ==> (#[trigger] self.langs@[j]).0@ != name@,
            decreases n - i,
        {
            if self.langs[i].0 == *name {
                if force {
                    let ghost before = self.langs@;
                    self.langs.set(i, (name.clone(), content));
                    proof {
                        assert(before[i as int].0@ == name@);
                        assert forall|a: int, b: int|
                            0 <= a < b < self.langs@.len() implies (#[trigger] self.langs@[a]).0@
                            != (#[trigger] self.langs@[b]).0@ by {
                            if a != i && b != i {
                                assert(before[a].0@ != before[b].0@);
                            } else if a == i {
                                assert(before[a].0@ != before[b].0@);
                            } else {
                                assert(before[a].0@ != before[b].0@);
                            }
                        }
                    }
                    return Ok(());
                } else {
                    return Err(LanguageClientError::LanguageAlreadyDefined);
                }
            }
            i = i + 1;
        }
        let ghost before = self.langs@;
        self.langs.push((name.clone(), content));
        proof {
            assert forall|a: int, b: int|
                0 <= a < b < self.langs@.len() implies (#[trigger] self.langs@[a]).0@ != (
                #[trigger] self.langs@[b]).0@ by {
                if b < n {
                    assert(before[a].0@ != before[b].0@);
                }
            }
        }
        Ok(())
    }
}

} // verus!
