//! Keys of objects in the blob store: a project's files, its shared
//! diamonds folder, and the bucket in front.
use vstd::prelude::*;
use vstd::string::*;

verus! {

/// A key under construction, and the project it belongs to.
#[derive(Debug)]
pub struct ObjectPath {
    inner: String,
    project_id: String,
}

/// `s` without one leading `/`.
pub open spec fn without_leading_slash(s: Seq<char>) -> Seq<char> {
    if s.len() > 0 && s[0] == '/' {
        s.skip(1)
    } else {
        s
    }
}

/// The characters after the last `/`, or all of them if there is none.
pub open spec fn after_last_slash(s: Seq<char>) -> Seq<char>
    decreases s.len(),
{
    if s.len() == 0 {
        s
    } else if s.last() == '/' {
        Seq::empty()
    } else {
        after_last_slash(s.drop_last()).push(s.last())
    }
}

/// The folder of shared diamonds of a project, under the project.
pub open spec fn diamonds_folder(project_id: Seq<char>) -> Seq<char> {
    project_id + "/shared/diamonds/"@
}

impl View for ObjectPath {
    /// The key so far, and the project.
    type V = (Seq<char>, Seq<char>);

    closed spec fn view(&self) -> (Seq<char>, Seq<char>) {
        (self.inner@, self.project_id@)
    }
}

impl ObjectPath {
    /// The key of `filename` in the project; a leading `/` of the file name
    /// is dropped.
    pub fn new(project_id: &str, filename: &str) -> (r: ObjectPath)
        ensures
            r@.0 == project_id@ + "/"@ + without_leading_slash(filename@),
            r@.1 == project_id@,
    {
        let n = filename.unicode_len();
        let path = if n > 0 && filename.get_char(0) == '/' {
            filename.substring_char(1, n)
        } else {
            filename
        };
        let mut inner = String::from_str(project_id);
        inner.append("/");
        inner.append(path);
        ObjectPath { inner, project_id: String::from_str(project_id) }
    }

    /// The same key, under the project's shared diamonds folder.
    pub fn with_diamonds(self) -> (r: ObjectPath)
        ensures
            r@.0 == diamonds_folder(self@.1) + self@.0,
            r@.1 == self@.1,
    {
        let mut inner = self.project_id.clone();
        inner.append("/shared/diamonds/");
        inner.append(self.inner.as_str());
        ObjectPath { inner, project_id: self.project_id }
    }

    /// The same key, prefixed by the bucket name.
    pub fn with_bucket(self, bucket_name: &str) -> (r: ObjectPath)
        ensures
            r@.0 == bucket_name@ + "/"@ + self@.0,
            r@.1 == self@.1,
    {
        let mut inner = String::from_str(bucket_name);
        inner.append("/");
        inner.append(self.inner.as_str());
        ObjectPath { inner, project_id: self.project_id }
    }

    pub fn as_str(&self) -> (r: &str)
        ensures
            r@ == self@.0,
    {
        self.inner.as_str()
    }

    pub fn build(self) -> (r: String)
        ensures
            r@ == self@.0,
    {
        self.inner
    }
}

/// The key prefix of a project's own diamonds.
pub fn diamonds_path(project_id: &str) -> (r: String)
    ensures
        r@ == diamonds_folder(project_id@) + project_id@,
{
    let mut r = String::from_str(project_id);
    r.append("/shared/diamonds/");
    r.append(project_id);
    r
}

/// The file name of an object key: what follows its last `/`.
pub fn key_to_filename(key: &str) -> (r: String)
    ensures
        r@ == after_last_slash(key@),
{
    let n = key.unicode_len();
    let mut j: usize = n;
    assert(key@.take(n as int) =~= key@);
    assert(key@.subrange(n as int, n as int) =~= Seq::<char>::empty());
    while j > 0 && key.get_char(j - 1) != '/'
        invariant
            n == key@.len(),
            j <= n,
            after_last_slash(key@) == after_last_slash(key@.take(j as int)) + key@.subrange(
                j as int,
                n as int,
            ),
        decreases j,
    {
        let ghost t = key@.take(j as int);
        assert(t.drop_last() =~= key@.take(j - 1));
        assert(t.last() == key@[j - 1]);
        assert(key@.subrange(j - 1, n as int) =~= seq![key@[j - 1]] + key@.subrange(
            j as int,
            n as int,
        ));
        assert(after_last_slash(t) == after_last_slash(key@.take(j - 1)).push(key@[j - 1]));
        assert(after_last_slash(key@.take(j - 1)).push(key@[j - 1]) + key@.subrange(j as int, n as int)
            =~= after_last_slash(key@.take(j - 1)) + key@.subrange(j - 1, n as int));
        j = j - 1;
    }
    if j > 0 {
        let ghost t = key@.take(j as int);
        assert(t.last() == key@[j - 1]);
        assert(after_last_slash(key@) =~= key@.subrange(j as int, n as int));
    } else {
        assert(key@.take(0) =~= Seq::<char>::empty());
        assert(after_last_slash(key@) =~= key@.subrange(0, n as int));
    }
    String::from_str(key.substring_char(j, n))
}

} // verus!
