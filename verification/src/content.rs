//! Tool results: a non-empty sequence of content blocks.

use vstd::prelude::*;
use vstd::string::*;
use crate::value::{value_text, Value, ValueView};

verus! {

/// One block of a tool result: text, or a value carried as data.
#[derive(Debug, PartialEq, Eq)]
pub enum ContentBlock {
    Text(String),
    Data(Value),
}

/// The mathematical content of a [`ContentBlock`].
pub enum ContentView {
    Text(Seq<char>),
    Data(ValueView),
}

/// The text of a block: a text block's text, a data block's value as text.
pub open spec fn block_text(b: ContentView) -> Seq<char> {
    match b {
        ContentView::Text(s) => s,
        ContentView::Data(v) => value_text(v),
    }
}

/// The texts of the blocks, one per line.
pub open spec fn joined(blocks: Seq<ContentView>) -> Seq<char>
    decreases blocks.len(),
{
    if blocks.len() == 0 {
        Seq::empty()
    } else if blocks.len() == 1 {
        block_text(blocks[0])
    } else {
        joined(blocks.drop_last()) + "\n"@ + block_text(blocks.last())
    }
}

impl View for ContentBlock {
    type V = ContentView;

    open spec fn view(&self) -> ContentView {
        match *self {
            ContentBlock::Text(s) => ContentView::Text(s@),
            ContentBlock::Data(v) => ContentView::Data(v@),
        }
    }
}

impl ContentBlock {
    /// The text of this block.
    pub fn to_text(&self) -> (s: String)
        ensures
            s@ == block_text(self@),
    {
        match self {
            ContentBlock::Text(s) => s.clone(),
            ContentBlock::Data(v) => v.to_text(),
        }
    }
}

impl Clone for ContentBlock {
    fn clone(&self) -> (r: Self)
        ensures
            r@ == self@,
    {
        match self {
            ContentBlock::Text(s) => ContentBlock::Text(s.clone()),
            ContentBlock::Data(v) => ContentBlock::Data(v.clone()),
        }
    }
}

/// What a successful invocation returns. It always holds at least one block.
#[derive(Debug, PartialEq, Eq)]
pub struct ToolResult {
    blocks: Vec<ContentBlock>,
}

impl View for ToolResult {
    type V = Seq<ContentView>;

    closed spec fn view(&self) -> Seq<ContentView> {
        self.blocks@.map_values(|b: ContentBlock| b@)
    }
}

impl ToolResult {
    #[verifier::type_invariant]
    spec fn inv(self) -> bool {
        self.blocks@.len() >= 1
    }

    /// A result of exactly one block.
    pub fn single(block: ContentBlock) -> (r: ToolResult)
        ensures
            r@ == seq![block@],
    {
        let mut blocks: Vec<ContentBlock> = Vec::new();
        blocks.push(block);
        let r = ToolResult { blocks };
        assert(r@ =~= seq![block@]);
        r
    }

    /// The same result with `block` added at the end.
    pub fn with(self, block: ContentBlock) -> (r: ToolResult)
        ensures
            r@ == self@.push(block@),
    {
        proof {
            use_type_invariant(&self);
        }
        let mut blocks = self.blocks;
        let ghost before = blocks@;
        blocks.push(block);
        let r = ToolResult { blocks };
        assert(r@ =~= before.map_values(|b: ContentBlock| b@).push(block@));
        r
    }

    /// The number of blocks, which is never zero.
    pub fn len(&self) -> (n: usize)
        ensures
            n == self@.len(),
            n >= 1,
    {
        proof {
            use_type_invariant(self);
        }
        self.blocks.len()
    }

    /// The block at position `i`, if there is one.
    pub fn block(&self, i: usize) -> (b: Option<&ContentBlock>)
        ensures
            i < self@.len() ==> b is Some && b->Some_0@ == self@[i as int],
            i >= self@.len() ==> b is None,
    {
        if i < self.blocks.len() {
            Some(&self.blocks[i])
        } else {
            None
        }
    }

    /// The texts of all blocks, one per line.
    pub fn to_text(&self) -> (s: String)
        ensures
            s@ == joined(self@),
    {
        proof {
            use_type_invariant(self);
        }
        let mut s = self.blocks[0].to_text();
        assert(self@.take(1) =~= seq![self@[0]]);
        let mut i: usize = 1;
        while i < self.blocks.len()
            invariant
                1 <= i <= self.blocks@.len(),
                s@ == joined(self@.take(i as int)),
            decreases self.blocks@.len() - i,
        {
            proof {
                let next = self@.take(i + 1);
                assert(next.drop_last() =~= self@.take(i as int));
                assert(next.last() == self.blocks@[i as int]@);
            }
            s.append("\n");
            let line = self.blocks[i].to_text();
            s.append(line.as_str());
            i += 1;
        }
        assert(self@.take(self.blocks@.len() as int) =~= self@);
        s
    }

    /// The text of the result when it consists of one text block and nothing
    /// else.
    pub fn sole_text(&self) -> (t: Option<String>)
        ensures
            match t {
                Some(s) => self@ == seq![ContentView::Text(s@)],
                None => !(self@.len() == 1 && self@[0] is Text),
            },
    {
        if self.blocks.len() == 1 {
            match &self.blocks[0] {
                ContentBlock::Text(s) => {
                    let t = s.clone();
                    assert(self@ =~= seq![ContentView::Text(t@)]);
                    Some(t)
                },
                ContentBlock::Data(_) => None,
            }
        } else {
            None
        }
    }
}

impl Clone for ToolResult {
    fn clone(&self) -> (r: Self)
        ensures
            r@ == self@,
    {
        proof {
            use_type_invariant(self);
        }
        let mut blocks: Vec<ContentBlock> = Vec::new();
        let mut i: usize = 0;
        while i < self.blocks.len()
            invariant
                i <= self.blocks@.len(),
                blocks@.len() == i,
                forall|j: int| 0 <= j < i ==> blocks@[j]@ == self.blocks@[j]@,
            decreases self.blocks@.len() - i,
        {
            blocks.push(self.blocks[i].clone());
            i += 1;
        }
        let r = ToolResult { blocks };
        assert(r@ =~= self@);
        r
    }
}

} // verus!
