//! The library lesson: a shared catalogue of books that anyone can list and
//! borrow from, and that an administrator adds to.
use vstd::prelude::*;
use crate::text::{join2, decimal, decimal_text, is_blank, is_blank_text, same_text};

verus! {

/// A book of the catalogue.
#[derive(Debug, Clone, PartialEq, Eq)]
pub struct Book {
    pub id: u64,
    pub title: String,
    pub author: String,
    pub is_available: bool,
}

impl Book {
    /// A copy of the book, field for field.
    pub fn duplicate(&self) -> (r: Book)
        ensures
            r == *self,
    {
        Book {
            id: self.id,
            title: self.title.clone(),
            author: self.author.clone(),
            is_available: self.is_available,
        }
    }
}

/// The errors of the library lesson.
#[derive(Debug, Clone, PartialEq, Eq)]
pub enum LibraryError {
    BookNotFound(u64),
    InvalidInput(String),
    Unauthorized,
    AlreadyBorrowed,
}

/// The JSON body of an error answer: `{"error": .., "code": ..}`.
#[derive(Debug, Clone, PartialEq, Eq)]
pub struct ErrorBody {
    pub error: String,
    pub code: u16,
}

impl LibraryError {
    /// The text of the error, as its `Display` writes it.
    pub open spec fn spec_message(&self) -> Seq<char> {
        match self {
            LibraryError::BookNotFound(id) => "Sách với id "@ + decimal(*id as nat)
                + " không tồn tại"@,
            LibraryError::InvalidInput(field) => field@ + " không được trống"@,
            LibraryError::Unauthorized => "Lỗi xác thực: Token không hợp lệ"@,
            LibraryError::AlreadyBorrowed => "Sách đã được mượn trước đó"@,
        }
    }

    /// The HTTP status that answers the error.
    pub open spec fn spec_status(&self) -> u16 {
        match self {
            LibraryError::BookNotFound(_) => 404,
            LibraryError::InvalidInput(_) => 400,
            LibraryError::Unauthorized => 401,
            LibraryError::AlreadyBorrowed => 409,
        }
    }

    /// The text of the error.
    pub fn message(&self) -> (r: String)
        ensures
            r@ == self.spec_message(),
    {
        match self {
            LibraryError::BookNotFound(id) => {
                let digits = decimal_text(*id);
                let head = join2("Sách với id ", digits.as_str());
                join2(head.as_str(), " không tồn tại")
            },
            LibraryError::InvalidInput(field) => join2(field.as_str(), " không được trống"),
            LibraryError::Unauthorized => String::from_str("Lỗi xác thực: Token không hợp lệ"),
            LibraryError::AlreadyBorrowed => String::from_str("Sách đã được mượn trước đó"),
        }
    }

    /// The HTTP status of the error.
    pub fn status_code(&self) -> (r: u16)
        ensures
            r == self.spec_status(),
    {
        match self {
            LibraryError::BookNotFound(_) => 404,
            LibraryError::InvalidInput(_) => 400,
            LibraryError::Unauthorized => 401,
            LibraryError::AlreadyBorrowed => 409,
        }
    }

    /// The answer to the error: its status, and a body that carries the
    /// message and the status code.
    pub fn into_response(self) -> (r: (u16, ErrorBody))
        ensures
            r.0 == self.spec_status(),
            r.1.code == self.spec_status(),
            r.1.error@ == self.spec_message(),
    {
        let status = self.status_code();
        let error = self.message();
        (status, ErrorBody { error, code: status })
    }
}

/// The book as it stands once lent out.
pub open spec fn borrowed(b: Book) -> Book {
    Book { is_available: false, ..b }
}

/// `i` is the position of the first book of `books` whose id is `id`.
pub open spec fn is_first_with_id(books: Seq<Book>, i: int, id: u64) -> bool {
    &&& 0 <= i < books.len()
    &&& books[i].id == id
    &&& forall|j: int| 0 <= j < i ==> books[j].id != id
}

/// The position of the first book whose id is `id`, or -1 when there is none.
pub open spec fn first_index(books: Seq<Book>, id: u64) -> int
    decreases books.len(),
{
    if books.len() == 0 {
        -1
    } else if books[0].id == id {
        0
    } else {
        let k = first_index(books.drop_first(), id);
        if k < 0 {
            -1
        } else {
            k + 1
        }
    }
}

/// What borrowing `id` does to the catalogue `books`, and what it answers:
/// the first book with that id is lent out if it is available.
pub open spec fn spec_borrow(books: Seq<Book>, id: u64) -> (Seq<Book>, Result<Book, LibraryError>) {
    let i = first_index(books, id);
    if i < 0 {
        (books, Err(LibraryError::BookNotFound(id)))
    } else if !books[i].is_available {
        (books, Err(LibraryError::AlreadyBorrowed))
    } else {
        (books.update(i, borrowed(books[i])), Ok(borrowed(books[i])))
    }
}

/// `first_index` finds the first book with the id, and -1 means there is none.
pub proof fn lemma_first_index(books: Seq<Book>, id: u64)
    ensures
        -1 <= first_index(books, id) < books.len(),
        first_index(books, id) == -1 ==> forall|j: int|
            0 <= j < books.len() ==> #[trigger] books[j].id != id,
        first_index(books, id) >= 0 ==> is_first_with_id(books, first_index(books, id), id),
    decreases books.len(),
{
    if books.len() > 0 && books[0].id != id {
        let rest = books.drop_first();
        lemma_first_index(rest, id);
        assert forall|j: int| 0 <= j < books.len() && j > 0 implies books[j] == rest[j - 1] by {}
    }
}

/// The first position with the id is the one `first_index` gives.
pub proof fn lemma_first_index_is(books: Seq<Book>, i: int, id: u64)
    requires
        is_first_with_id(books, i, id),
    ensures
        first_index(books, id) == i,
{
    lemma_first_index(books, id);
    let k = first_index(books, id);
    if k == -1 {
        assert(books[i].id == id);
    } else if k < i {
        assert(books[k].id == id);
    } else if k > i {
        assert(books[i].id == id);
    }
}

/// Replacing a book by one with the same id keeps the first position of every id.
pub proof fn lemma_first_index_update(books: Seq<Book>, i: int, b: Book, id: u64)
    requires
        0 <= i < books.len(),
        b.id == books[i].id,
    ensures
        first_index(books.update(i, b), id) == first_index(books, id),
{
    let after = books.update(i, b);
    lemma_first_index(books, id);
    lemma_first_index(after, id);
    let k = first_index(books, id);
    if k >= 0 {
        assert forall|j: int| 0 <= j < k implies after[j].id != id by {
            assert(books[j].id != id);
        }
        lemma_first_index_is(after, k, id);
    } else {
        let m = first_index(after, id);
        if m >= 0 {
            assert(books[m].id == after[m].id);
        }
    }
}

/// The catalogue of the library.
#[derive(Debug)]
pub struct Library {
    books: Vec<Book>,
}

impl View for Library {
    type V = Seq<Book>;

    closed spec fn view(&self) -> Seq<Book> {
        self.books@
    }
}

impl Library {
    /// A catalogue that holds `initial`, in that order.
    pub fn new(initial: Vec<Book>) -> (r: Library)
        ensures
            r@ == initial@,
    {
        Library { books: initial }
    }

    /// All the books, in catalogue order.
    pub fn list_books(&self) -> (r: Vec<Book>)
        ensures
            r@ == self@,
    {
        let mut out: Vec<Book> = Vec::new();
        let n = self.books.len();
        for i in 0..n
            invariant
                n == self.books@.len(),
                out@ == self.books@.subrange(0, i as int),
        {
            out.push(self.books[i].duplicate());
        }
        assert(self.books@.subrange(0, n as int) == self.books@);
        out
    }

    /// Adds a book at the end of the catalogue, unless its title is blank.
    pub fn add_book(&mut self, new_book: Book) -> (r: Result<(u16, String), LibraryError>)
        ensures
            is_blank(new_book.title@) ==> {
                &&& r matches Err(LibraryError::InvalidInput(field)) && field@ == "title"@
                &&& final(self)@ == old(self)@
            },
            !is_blank(new_book.title@) ==> {
                &&& r matches Ok((status, text)) && status == 201 && text@
                    == "Thêm sách thành công"@
                &&& final(self)@ == old(self)@.push(new_book)
            },
    {
        if is_blank_text(new_book.title.as_str()) {
            return Err(LibraryError::InvalidInput(String::from_str("title")));
        }
        self.books.push(new_book);
        Ok((201, String::from_str("Thêm sách thành công")))
    }

    /// Lends out the first book whose id is `id`.
    pub fn borrow_book(&mut self, id: u64) -> (r: Result<Book, LibraryError>)
        ensures
            (final(self)@, r) == spec_borrow(old(self)@, id),
    {
        let n = self.books.len();
        let mut i: usize = 0;
        while i < n
            invariant
                n == self.books@.len(),
                self.books@ == old(self).books@,
                i <= n,
                forall|j: int| 0 <= j < i ==> #[trigger] self.books@[j].id != id,
            decreases n - i,
        {
            if self.books[i].id == id {
                proof {
                    lemma_first_index_is(self.books@, i as int, id);
                }
                if !self.books[i].is_available {
                    return Err(LibraryError::AlreadyBorrowed);
                }
                let mut book = self.books[i].duplicate();
                book.is_available = false;
                let answer = book.duplicate();
                self.books.set(i, book);
                return Ok(answer);
            }
            i = i + 1;
        }
        proof {
            lemma_first_index(self.books@, id);
            if first_index(self.books@, id) >= 0 {
                let k = first_index(self.books@, id);
                assert(self.books@[k].id == id);
            }
        }
        Err(LibraryError::BookNotFound(id))
    }
}

/// Lets the request through only when it carries the administrator's token.
pub fn authen(token: Option<&str>) -> (r: Result<(), LibraryError>)
    ensures
        r is Ok <==> (token matches Some(t) && t@ == "library-admin"@),
        r matches Err(e) ==> e is Unauthorized,
{
    match token {
        Some(t) => {
            if same_text(t, "library-admin") {
                Ok(())
            } else {
                Err(LibraryError::Unauthorized)
            }
        },
        None => Err(LibraryError::Unauthorized),
    }
}

/// The line logged for each request: its method and its URI.
pub fn request_log_line(method: &str, uri: &str) -> (r: String)
    ensures
        r@ == "Request: "@ + method@ + " "@ + uri@,
{
    let head = join2("Request: ", method);
    let head = join2(head.as_str(), " ");
    join2(head.as_str(), uri)
}

/// A loan of an id whose first book is available succeeds, whatever the
/// other books are: it answers that book, lent out, and changes only its
/// availability. `AlreadyBorrowed` is answered only when the first book with
/// the id is lent out, and `BookNotFound` only when no book has the id.
pub proof fn law_available_book_is_lent(books: Seq<Book>, id: u64, i: int)
    requires
        is_first_with_id(books, i, id),
    ensures
        books[i].is_available ==> {
            &&& spec_borrow(books, id).1 matches Ok(b)
            &&& b.id == books[i].id && b.title == books[i].title && b.author == books[i].author
            &&& !b.is_available
            &&& spec_borrow(books, id).0 == books.update(i, b)
        },
        !books[i].is_available ==> spec_borrow(books, id) == (books, Err::<Book, LibraryError>(
            LibraryError::AlreadyBorrowed,
        )),
        spec_borrow(books, id).1 != Err::<Book, LibraryError>(LibraryError::BookNotFound(id)),
{
    lemma_first_index_is(books, i, id);
}

/// A successful loan makes the next loan of the same id answer that the book
/// is already lent out, and leaves the catalogue as it was.
pub proof fn law_second_borrow_refused(books: Seq<Book>, id: u64)
    requires
        spec_borrow(books, id).1 is Ok,
    ensures
        spec_borrow(spec_borrow(books, id).0, id).1 == Err::<Book, LibraryError>(
            LibraryError::AlreadyBorrowed,
        ),
        spec_borrow(spec_borrow(books, id).0, id).0 == spec_borrow(books, id).0,
{
    let i = first_index(books, id);
    lemma_first_index(books, id);
    lemma_first_index_update(books, i, borrowed(books[i]), id);
}

/// A loan changes only the availability of the one book it lends out: the
/// catalogue keeps its length, and every other book and every id stay.
pub proof fn law_borrow_touches_one_book(books: Seq<Book>, id: u64)
    ensures
        spec_borrow(books, id).0.len() == books.len(),
        forall|j: int|
            0 <= j < books.len() && j != first_index(books, id) ==> #[trigger] spec_borrow(
                books,
                id,
            ).0[j] == books[j],
        forall|j: int|
            0 <= j < books.len() ==> (#[trigger] spec_borrow(books, id).0[j]).id == books[j].id,
{
    lemma_first_index(books, id);
}

/// A refused loan leaves the catalogue unchanged; a loan is refused as not
/// found exactly when no book has the id.
pub proof fn law_refused_borrow_changes_nothing(books: Seq<Book>, id: u64)
    ensures
        spec_borrow(books, id).1 is Err ==> spec_borrow(books, id).0 == books,
        (spec_borrow(books, id).1 == Err::<Book, LibraryError>(LibraryError::BookNotFound(id)))
            <==> (forall|j: int| 0 <= j < books.len() ==> #[trigger] books[j].id != id),
{
    lemma_first_index(books, id);
    if spec_borrow(books, id).1 != Err::<Book, LibraryError>(LibraryError::BookNotFound(id)) {
        let k = first_index(books, id);
        assert(books[k].id == id);
    }
}

} // verus!
