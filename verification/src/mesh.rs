//! Reading triangle meshes from Wavefront OBJ text.
//!
//! Only the statements `v` (a vertex position) and `f` (a face) are read;
//! every other line is passed over. Faces with more than three corners are
//! cut into a fan of triangles around their first corner. The coordinates of
//! a vertex are real numbers; they are not converted here but handed back as
//! the places in the text where they stand.

use vstd::prelude::*;

verus! {

/// A stretch of the text: the bytes from `start` up to, not including, `end`.
#[derive(Clone, Copy, PartialEq, Eq, Debug, Structural)]
pub struct Span {
    pub start: usize,
    pub end: usize,
}

/// Where the three coordinates of a vertex stand in the text.
#[derive(Clone, Copy, PartialEq, Eq, Debug, Structural)]
pub struct ObjVertex {
    pub x: Span,
    pub y: Span,
    pub z: Span,
}

/// What a text holds: its vertices, and its triangles as three indices into
/// the vertices, counted from zero, and a zero for the material.
#[derive(Debug)]
pub struct ObjMesh {
    pub vertices: Vec<ObjVertex>,
    pub triangles: Vec<[u32; 4]>,
}

/// Why a text is not a mesh.
#[derive(Clone, Copy, PartialEq, Eq, Debug, Structural)]
pub enum ObjError {
    /// A `v` statement with fewer than three coordinates.
    MissingCoordinate,
    /// A corner of a face whose vertex index is not a positive decimal
    /// number that fits 32 bits.
    BadIndex,
    /// An `f` statement without corners.
    EmptyFace,
}

/// Whether a byte separates words: a blank, a tab, a line feed, a vertical
/// tab, a form feed or a carriage return.
pub open spec fn spec_is_space(byte: u8) -> bool {
    byte == 0x20 || (0x09 <= byte && byte <= 0x0d)
}

#[verifier::when_used_as_spec(spec_is_space)]
pub fn is_space(byte: u8) -> (r: bool)
    ensures
        r == spec_is_space(byte),
{
    byte == 0x20 || (0x09 <= byte && byte <= 0x0d)
}

/// The end of the line that `from` lies in: the place of the next line feed,
/// or the end of the text.
pub open spec fn line_end(text: Seq<u8>, from: int) -> int
    decreases text.len() - from,
{
    if 0 <= from < text.len() && text[from] != 0x0a {
        line_end(text, from + 1)
    } else {
        from
    }
}

/// The first place at or behind `from` and before `end` that holds no
/// separator, or `end`.
pub open spec fn word_start(text: Seq<u8>, from: int, end: int) -> int
    decreases end - from,
{
    if 0 <= from < end <= text.len() && spec_is_space(text[from]) {
        word_start(text, from + 1, end)
    } else {
        from
    }
}

/// The first place at or behind `from` and before `end` that holds a
/// separator, or `end`.
pub open spec fn word_end(text: Seq<u8>, from: int, end: int) -> int
    decreases end - from,
{
    if 0 <= from < end <= text.len() && !spec_is_space(text[from]) {
        word_end(text, from + 1, end)
    } else {
        from
    }
}

/// The words between `from` and `end`, in their order.
pub open spec fn words(text: Seq<u8>, from: int, end: int) -> Seq<Span>
    decreases end - from,
{
    let start = word_start(text, from, end);
    if 0 <= from <= start < end <= text.len() {
        let stop = word_end(text, start, end);
        if start < stop <= end {
            seq![Span { start: start as usize, end: stop as usize }] + words(text, stop, end)
        } else {
            Seq::empty()
        }
    } else {
        Seq::empty()
    }
}

/// The bytes of a stretch of the text.
pub open spec fn bytes_of(text: Seq<u8>, span: Span) -> Seq<u8> {
    text.subrange(span.start as int, span.end as int)
}

/// The first place at or behind `from` and before `end` that holds a slash,
/// or `end`.
pub open spec fn field_end(text: Seq<u8>, from: int, end: int) -> int
    decreases end - from,
{
    if 0 <= from < end <= text.len() && text[from] != 0x2f {
        field_end(text, from + 1, end)
    } else {
        from
    }
}

/// Whether every byte is a decimal digit.
pub open spec fn all_digits(digits: Seq<u8>) -> bool {
    forall|i: int| 0 <= i < digits.len() ==> 0x30 <= #[trigger] digits[i] <= 0x39
}

/// The number that decimal digits stand for.
pub open spec fn decimal(digits: Seq<u8>) -> int
    decreases digits.len(),
{
    if digits.len() == 0 {
        0
    } else {
        decimal(digits.drop_last()) * 10 + (digits.last() - 0x30)
    }
}

/// The vertex index that a corner of a face names, counted from zero: the
/// corner's text up to its first slash is a decimal number, with or without
/// a plus sign before it, that counts the vertices from one.
pub open spec fn corner_index(text: Seq<u8>, corner: Span) -> Option<u32> {
    let stop = field_end(text, corner.start as int, corner.end as int);
    let first = if corner.start < stop && text[corner.start as int] == 0x2b {
        corner.start + 1
    } else {
        corner.start as int
    };
    let digits = text.subrange(first, stop);
    if first < stop && all_digits(digits) && 1 <= decimal(digits) <= u32::MAX {
        Some((decimal(digits) - 1) as u32)
    } else {
        None
    }
}

/// The vertex indices of the corners, as far as every corner names one.
pub open spec fn corner_indices(text: Seq<u8>, corners: Seq<Span>) -> Option<Seq<u32>>
    decreases corners.len(),
{
    if corners.len() == 0 {
        Some(Seq::empty())
    } else {
        match (corner_indices(text, corners.drop_last()), corner_index(text, corners.last())) {
            (Some(front), Some(index)) => Some(front.push(index)),
            _ => None,
        }
    }
}

/// The fan of triangles around the first corner of a face.
pub open spec fn fan(indices: Seq<u32>) -> Seq<[u32; 4]> {
    Seq::new(
        if indices.len() >= 2 {
            (indices.len() - 2) as nat
        } else {
            0
        },
        |i: int| [indices[0], indices[i + 1], indices[i + 2], 0u32],
    )
}

/// What one line of the text says.
pub enum Statement {
    /// Nothing that is read.
    Skip,
    /// A vertex with its coordinates at the given places.
    Vertex(ObjVertex),
    /// A face with the given vertex indices at its corners.
    Face(Seq<u32>),
    /// A statement that cannot be read.
    Malformed(ObjError),
}

/// What the line between `from` and `end` says.
pub open spec fn statement(text: Seq<u8>, from: int, end: int) -> Statement {
    let line = words(text, from, end);
    if line.len() == 0 {
        Statement::Skip
    } else if bytes_of(text, line[0]) == seq![0x76u8] {
        if line.len() >= 4 {
            Statement::Vertex(ObjVertex { x: line[1], y: line[2], z: line[3] })
        } else {
            Statement::Malformed(ObjError::MissingCoordinate)
        }
    } else if bytes_of(text, line[0]) == seq![0x66u8] {
        match corner_indices(text, line.skip(1)) {
            None => Statement::Malformed(ObjError::BadIndex),
            Some(indices) => if indices.len() == 0 {
                Statement::Malformed(ObjError::EmptyFace)
            } else {
                Statement::Face(indices)
            },
        }
    } else {
        Statement::Skip
    }
}

/// The mesh of the text from `from` on, added to the vertices and triangles
/// read before, or the first error in it.
pub open spec fn mesh_from(
    text: Seq<u8>,
    from: int,
    vertices: Seq<ObjVertex>,
    triangles: Seq<[u32; 4]>,
) -> Result<(Seq<ObjVertex>, Seq<[u32; 4]>), ObjError>
    decreases text.len() + 1 - from,
{
    if 0 <= from < text.len() {
        let end = line_end(text, from);
        if from <= end <= text.len() {
            match statement(text, from, end) {
                Statement::Skip => mesh_from(text, end + 1, vertices, triangles),
                Statement::Vertex(vertex) => mesh_from(
                    text,
                    end + 1,
                    vertices.push(vertex),
                    triangles,
                ),
                Statement::Face(indices) => mesh_from(
                    text,
                    end + 1,
                    vertices,
                    triangles + fan(indices),
                ),
                Statement::Malformed(error) => Err(error),
            }
        } else {
            Ok((vertices, triangles))
        }
    } else {
        Ok((vertices, triangles))
    }
}

/// The mesh that a text holds, or the first error in it.
pub open spec fn mesh_of(text: Seq<u8>) -> Result<(Seq<ObjVertex>, Seq<[u32; 4]>), ObjError> {
    mesh_from(text, 0, Seq::empty(), Seq::empty())
}

proof fn lemma_line_end(text: Seq<u8>, from: int)
    requires
        0 <= from <= text.len(),
    ensures
        from <= line_end(text, from) <= text.len(),
    decreases text.len() - from,
{
    if from < text.len() && text[from] != 0x0a {
        lemma_line_end(text, from + 1);
    }
}

proof fn lemma_word_start(text: Seq<u8>, from: int, end: int)
    requires
        0 <= from <= end <= text.len(),
    ensures
        from <= word_start(text, from, end) <= end,
    decreases end - from,
{
    if from < end && spec_is_space(text[from]) {
        lemma_word_start(text, from + 1, end);
    }
}

proof fn lemma_word_end(text: Seq<u8>, from: int, end: int)
    requires
        0 <= from <= end <= text.len(),
    ensures
        from <= word_end(text, from, end) <= end,
        from < end && !spec_is_space(text[from]) ==> from < word_end(text, from, end),
    decreases end - from,
{
    if from < end && !spec_is_space(text[from]) {
        lemma_word_end(text, from + 1, end);
    }
}

proof fn lemma_field_end(text: Seq<u8>, from: int, end: int)
    requires
        0 <= from <= end <= text.len(),
    ensures
        from <= field_end(text, from, end) <= end,
    decreases end - from,
{
    if from < end && text[from] != 0x2f {
        lemma_field_end(text, from + 1, end);
    }
}

fn find_line_end(text: &[u8], from: usize) -> (end: usize)
    requires
        from <= text@.len(),
    ensures
        end == line_end(text@, from as int),
        from <= end <= text@.len(),
{
    let mut i = from;
    while i < text.len() && text[i] != 0x0a
        invariant
            from <= i <= text@.len(),
            line_end(text@, from as int) == line_end(text@, i as int),
        decreases text@.len() - i,
    {
        i = i + 1;
    }
    i
}

fn find_word_start(text: &[u8], from: usize, end: usize) -> (start: usize)
    requires
        from <= end <= text@.len(),
    ensures
        start == word_start(text@, from as int, end as int),
        from <= start <= end,
{
    let mut i = from;
    while i < end && is_space(text[i])
        invariant
            from <= i <= end <= text@.len(),
            word_start(text@, from as int, end as int) == word_start(text@, i as int, end as int),
        decreases end - i,
    {
        i = i + 1;
    }
    i
}

fn find_word_end(text: &[u8], from: usize, end: usize) -> (stop: usize)
    requires
        from <= end <= text@.len(),
    ensures
        stop == word_end(text@, from as int, end as int),
        from <= stop <= end,
{
    let mut i = from;
    while i < end && !is_space(text[i])
        invariant
            from <= i <= end <= text@.len(),
            word_end(text@, from as int, end as int) == word_end(text@, i as int, end as int),
        decreases end - i,
    {
        i = i + 1;
    }
    i
}

fn find_field_end(text: &[u8], from: usize, end: usize) -> (stop: usize)
    requires
        from <= end <= text@.len(),
    ensures
        stop == field_end(text@, from as int, end as int),
        from <= stop <= end,
{
    let mut i = from;
    while i < end && text[i] != 0x2f
        invariant
            from <= i <= end <= text@.len(),
            field_end(text@, from as int, end as int) == field_end(text@, i as int, end as int),
        decreases end - i,
    {
        i = i + 1;
    }
    i
}

/// The words of the line between `from` and `end`.
pub fn split_words(text: &[u8], from: usize, end: usize) -> (line: Vec<Span>)
    requires
        from <= end <= text@.len(),
    ensures
        line@ == words(text@, from as int, end as int),
        forall|i: int|
            0 <= i < line@.len() ==> from <= (#[trigger] line@[i]).start < line@[i].end <= end,
{
    let mut line: Vec<Span> = Vec::new();
    let mut at = from;
    loop
        invariant
            from <= at <= end <= text@.len(),
            words(text@, from as int, end as int) == line@ + words(text@, at as int, end as int),
            forall|i: int|
                0 <= i < line@.len() ==> from <= (#[trigger] line@[i]).start < line@[i].end <= end,
        ensures
            line@ == words(text@, from as int, end as int),
            forall|i: int|
                0 <= i < line@.len() ==> from <= (#[trigger] line@[i]).start < line@[i].end <= end,
        decreases end - at,
    {
        let start = find_word_start(text, at, end);
        if start >= end {
            assert(words(text@, at as int, end as int) =~= Seq::<Span>::empty());
            assert(line@ + Seq::<Span>::empty() =~= line@);
            break;
        }
        let stop = find_word_end(text, start, end);
        proof {
            lemma_word_start(text@, at as int, end as int);
            assert(!spec_is_space(text@[start as int])) by {
                lemma_word_start_stops(text@, at as int, end as int);
            }
            lemma_word_end(text@, start as int, end as int);
            let word = Span { start, end: stop };
            assert(words(text@, at as int, end as int) == seq![word] + words(
                text@,
                stop as int,
                end as int,
            ));
            assert(line@.push(word) + words(text@, stop as int, end as int) =~= line@ + (seq![
                word,
            ] + words(text@, stop as int, end as int)));
        }
        line.push(Span { start, end: stop });
        at = stop;
    }
    line
}

proof fn lemma_word_start_stops(text: Seq<u8>, from: int, end: int)
    requires
        0 <= from <= end <= text.len(),
        word_start(text, from, end) < end,
    ensures
        !spec_is_space(text[word_start(text, from, end)]),
    decreases end - from,
{
    if from < end && spec_is_space(text[from]) {
        lemma_word_start_stops(text, from + 1, end);
    }
}

proof fn lemma_decimal_grows(digits: Seq<u8>, n: int)
    requires
        all_digits(digits),
        0 <= n <= digits.len(),
    ensures
        0 <= decimal(digits.take(n)) <= decimal(digits),
    decreases digits.len() - n,
{
    lemma_decimal_nonnegative(digits.take(n));
    if n < digits.len() {
        lemma_decimal_grows(digits, n + 1);
        let longer = digits.take(n + 1);
        assert(longer.drop_last() =~= digits.take(n));
        assert(longer.last() == digits[n]);
    } else {
        assert(digits.take(n) =~= digits);
    }
}

proof fn lemma_decimal_nonnegative(digits: Seq<u8>)
    requires
        all_digits(digits),
    ensures
        0 <= decimal(digits),
    decreases digits.len(),
{
    if digits.len() > 0 {
        assert(digits.last() == digits[digits.len() - 1]);
        assert forall|i: int| 0 <= i < digits.drop_last().len() implies 0x30
            <= #[trigger] digits.drop_last()[i] <= 0x39 by {
            assert(digits.drop_last()[i] == digits[i]);
        }
        lemma_decimal_nonnegative(digits.drop_last());
    }
}

/// The vertex index that a corner of a face names, if it names one.
pub fn parse_corner(text: &[u8], corner: Span) -> (index: Option<u32>)
    requires
        corner.start <= corner.end <= text@.len(),
    ensures
        index == corner_index(text@, corner),
{
    let stop = find_field_end(text, corner.start, corner.end);
    let first = if corner.start < stop && text[corner.start] == 0x2b {
        corner.start + 1
    } else {
        corner.start
    };
    if first >= stop {
        return None;
    }
    let ghost digits = text@.subrange(first as int, stop as int);
    let mut value: u64 = 0;
    let mut i = first;
    while i < stop
        invariant
            first <= i <= stop <= text@.len(),
            stop == field_end(text@, corner.start as int, corner.end as int),
            first == if corner.start < stop && text@[corner.start as int] == 0x2b {
                corner.start + 1
            } else {
                corner.start as int
            },
            digits == text@.subrange(first as int, stop as int),
            all_digits(digits.take(i - first)),
            value == decimal(digits.take(i - first)),
            value <= u32::MAX,
        decreases stop - i,
    {
        let byte = text[i];
        proof {
            let longer = digits.take(i - first + 1);
            assert(longer.drop_last() =~= digits.take(i - first));
            assert(longer.last() == byte);
        }
        if byte < 0x30 || byte > 0x39 {
            assert(!all_digits(digits)) by {
                assert(digits[i - first] == byte);
            }
            return None;
        }
        let next = value * 10 + (byte - 0x30) as u64;
        proof {
            let longer = digits.take(i - first + 1);
            assert forall|k: int| 0 <= k < longer.len() implies 0x30 <= #[trigger] longer[k]
                <= 0x39 by {
                if k < i - first {
                    assert(digits.take(i - first)[k] == longer[k]);
                }
            }
        }
        if next > u32::MAX as u64 {
            proof {
                if all_digits(digits) {
                    lemma_decimal_grows(digits, i - first + 1);
                }
            }
            return None;
        }
        value = next;
        i = i + 1;
    }
    assert(digits.take(stop - first) =~= digits);
    if value == 0 {
        None
    } else {
        Some((value - 1) as u32)
    }
}

proof fn lemma_bad_corner(text: Seq<u8>, corners: Seq<Span>, k: int)
    requires
        0 <= k < corners.len(),
        corner_index(text, corners[k]) is None,
    ensures
        corner_indices(text, corners) is None,
    decreases corners.len(),
{
    if k < corners.len() - 1 {
        lemma_bad_corner(text, corners.drop_last(), k);
    }
}

fn parse_corners(text: &[u8], line: &Vec<Span>) -> (r: Option<Vec<u32>>)
    requires
        line@.len() >= 1,
        forall|i: int|
            0 <= i < line@.len() ==> (#[trigger] line@[i]).start <= line@[i].end <= text@.len(),
    ensures
        match corner_indices(text@, line@.skip(1)) {
            None => r is None,
            Some(indices) => r matches Some(found) && found@ == indices,
        },
{
    let ghost corners = line@.skip(1);
    let mut indices: Vec<u32> = Vec::new();
    let mut k: usize = 1;
    assert(corners.take(0) =~= Seq::<Span>::empty());
    while k < line.len()
        invariant
            1 <= k <= line@.len(),
            corners == line@.skip(1),
            corner_indices(text@, corners.take(k - 1)) == Some(indices@),
            forall|i: int|
                0 <= i < line@.len() ==> (#[trigger] line@[i]).start <= line@[i].end
                    <= text@.len(),
        decreases line@.len() - k,
    {
        let corner = line[k];
        assert(corners[k - 1] == corner);
        match parse_corner(text, corner) {
            None => {
                proof {
                    lemma_bad_corner(text@, corners, k - 1);
                }
                return None;
            },
            Some(index) => {
                proof {
                    let longer = corners.take(k as int);
                    assert(longer.drop_last() =~= corners.take(k - 1));
                    assert(longer.last() == corner);
                }
                indices.push(index);
            },
        }
        k = k + 1;
    }
    assert(corners.take(k - 1) =~= corners);
    Some(indices)
}

fn push_fan(indices: &Vec<u32>, triangles: &mut Vec<[u32; 4]>)
    requires
        indices@.len() >= 1,
    ensures
        final(triangles)@ == old(triangles)@ + fan(indices@),
{
    let mut i: usize = 1;
    assert(triangles@ =~= old(triangles)@ + fan(indices@).take(0));
    while i < indices.len() - 1
        invariant
            1 <= i <= indices@.len(),
            indices@.len() >= 2 ==> i <= indices@.len() - 1,
            triangles@ == old(triangles)@ + fan(indices@).take(i - 1),
        decreases indices@.len() - i,
    {
        let triangle = [indices[0], indices[i], indices[i + 1], 0];
        proof {
            let all = fan(indices@);
            assert(all[i - 1]@ =~= triangle@);
            assert(all[i - 1] == triangle);
            assert(all.take(i as int) =~= all.take(i - 1).push(triangle));
            assert(old(triangles)@ + all.take(i - 1).push(triangle) =~= (old(triangles)@
                + all.take(i - 1)).push(triangle));
        }
        triangles.push(triangle);
        i = i + 1;
    }
    proof {
        let all = fan(indices@);
        assert(all.take(i - 1) =~= all);
    }
}

fn is_keyword(text: &[u8], word: Span, letter: u8) -> (r: bool)
    requires
        word.start < word.end <= text@.len(),
    ensures
        r == (bytes_of(text@, word) == seq![letter]),
{
    let r = word.end - word.start == 1 && text[word.start] == letter;
    proof {
        let bytes = bytes_of(text@, word);
        if r {
            assert(bytes =~= seq![letter]);
        } else if bytes == seq![letter] {
            assert(bytes.len() == 1);
            assert(bytes[0] == letter);
        }
    }
    r
}

/// Reads the mesh that a text holds.
///
/// A vertex statement wants at least three words behind the `v`, which are
/// handed back as the places of its coordinates; further words are passed
/// over. A face statement wants at least one corner; each corner names its
/// vertex by a decimal number up to the first slash, counted from one. The
/// first statement that does not meet this ends the reading with its error.
pub fn parse_obj(text: &[u8]) -> (r: Result<ObjMesh, ObjError>)
    ensures
        match mesh_of(text@) {
            Ok((vertices, triangles)) => r matches Ok(mesh) && mesh.vertices@ == vertices
                && mesh.triangles@ == triangles,
            Err(error) => r matches Err(found) && found == error,
        },
{
    let mut vertices: Vec<ObjVertex> = Vec::new();
    let mut triangles: Vec<[u32; 4]> = Vec::new();
    let mut at: usize = 0;
    while at < text.len()
        invariant
            at <= text@.len(),
            mesh_of(text@) == mesh_from(text@, at as int, vertices@, triangles@),
        decreases text@.len() - at,
    {
        let end = find_line_end(text, at);
        let line = split_words(text, at, end);
        let ghost before_vertices = vertices@;
        let ghost before_triangles = triangles@;
        if line.len() > 0 {
            if is_keyword(text, line[0], 0x76) {
                if line.len() >= 4 {
                    vertices.push(ObjVertex { x: line[1], y: line[2], z: line[3] });
                } else {
                    return Err(ObjError::MissingCoordinate);
                }
            } else if is_keyword(text, line[0], 0x66) {
                match parse_corners(text, &line) {
                    None => {
                        return Err(ObjError::BadIndex);
                    },
                    Some(indices) => {
                        if indices.len() == 0 {
                            return Err(ObjError::EmptyFace);
                        }
                        push_fan(&indices, &mut triangles);
                    },
                }
            }
        }
        proof {
            let next = mesh_from(text@, end + 1, vertices@, triangles@);
            assert(mesh_from(text@, at as int, before_vertices, before_triangles) == next);
            if end >= text@.len() {
                assert(next == mesh_from(text@, text@.len() as int, vertices@, triangles@));
            }
        }
        at = if end >= text.len() {
            text.len()
        } else {
            end + 1
        };
    }
    Ok(ObjMesh { vertices, triangles })
}

} // verus!
