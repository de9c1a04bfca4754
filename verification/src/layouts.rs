//! Vertex input layouts.

use crate::bootstrap::{
    SShadowkeepVertexInputElement, SShadowkeepVertexInputElementSet, SShadowkeepVertexInputLayouts,
    SShadowkeepVertexLayout,
};
use crate::text::{decimal, decimal_text, Error};
use vstd::prelude::*;

verus! {

/// How many layouts there can be.
pub const LAYOUT_COUNT: usize = 255;

/// How many layouts are built in.
pub const BUILT_IN_LAYOUTS: usize = 7;

/// A vertex format. One without a shader type is not supported.
#[derive(Debug)]
pub struct InputFormat {
    pub hlsl_type: String,
    pub format: u32,
    pub stride: u32,
}

/// An element of a layout: the numbers of its semantic and of its format, and
/// the buffer that it comes from.
#[derive(Clone, Copy, Debug, PartialEq, Eq, Structural)]
pub struct InputElement {
    pub semantic: u8,
    pub semantic_index: u32,
    pub format: u8,
    pub buffer_index: u32,
    pub is_instance_data: bool,
}

/// A layout to be created.
#[derive(Debug)]
pub enum LayoutPlan {
    BuiltIn { index: usize },
    Dynamic { elements: Vec<InputElement> },
}

/// What a layout plan says.
pub enum LayoutView {
    BuiltIn(int),
    Dynamic(Seq<InputElement>),
}

impl View for LayoutPlan {
    type V = LayoutView;

    open spec fn view(&self) -> LayoutView {
        match self {
            LayoutPlan::BuiltIn { index } => LayoutView::BuiltIn(*index as int),
            LayoutPlan::Dynamic { elements } => LayoutView::Dynamic(elements@),
        }
    }
}

pub open spec fn layout_message(index: u8, rest: Seq<char>, number: nat) -> Seq<char> {
    "input layout "@ + decimal_text(index as nat) + rest + decimal_text(number)
}

/// An element as a layout uses it, or why it cannot.
pub open spec fn checked_element(
    index: u8,
    element: SShadowkeepVertexInputElement,
    buffer: u32,
    semantics: nat,
    formats: Seq<InputFormat>,
) -> Result<InputElement, Seq<char>> {
    if element.semantic >= semantics {
        Err(layout_message(index, " has invalid semantic "@, element.semantic as nat))
    } else if element.format >= formats.len() {
        Err(layout_message(index, " has invalid format "@, element.format as nat))
    } else if formats[element.format as int].hlsl_type@.len() == 0 {
        Err(layout_message(index, " uses unsupported format "@, element.format as nat))
    } else {
        Ok(
            InputElement {
                semantic: element.semantic,
                semantic_index: element.semantic_index as u32,
                format: element.format,
                buffer_index: buffer,
                is_instance_data: false,
            },
        )
    }
}

/// The elements from `from` on, or the message of the first that is wrong.
pub open spec fn checked_elements(
    index: u8,
    elements: Seq<SShadowkeepVertexInputElement>,
    from: int,
    buffer: u32,
    semantics: nat,
    formats: Seq<InputFormat>,
) -> Result<Seq<InputElement>, Seq<char>>
    decreases elements.len() - from,
{
    if from >= elements.len() {
        Ok(seq![])
    } else {
        match checked_element(index, elements[from], buffer, semantics, formats) {
            Err(message) => Err(message),
            Ok(element) => match checked_elements(
                index,
                elements,
                from + 1,
                buffer,
                semantics,
                formats,
            ) {
                Err(message) => Err(message),
                Ok(rest) => Ok(seq![element] + rest),
            },
        }
    }
}

/// The element set of a buffer.
pub open spec fn set_of(layout: SShadowkeepVertexLayout, buffer: int) -> u32 {
    if buffer == 0 {
        layout.element_0
    } else if buffer == 1 {
        layout.element_1
    } else if buffer == 2 {
        layout.element_2
    } else {
        layout.element_3
    }
}

/// The elements of the buffers from `buffer` on. A buffer whose set is
/// `u32::MAX` is not used.
pub open spec fn checked_buffers(
    layout: SShadowkeepVertexLayout,
    buffer: int,
    sets: Seq<SShadowkeepVertexInputElementSet>,
    semantics: nat,
    formats: Seq<InputFormat>,
) -> Result<Seq<InputElement>, Seq<char>>
    decreases 4 - buffer,
{
    let set = set_of(layout, buffer);
    if buffer >= 4 {
        Ok(seq![])
    } else if set == u32::MAX {
        checked_buffers(layout, buffer + 1, sets, semantics, formats)
    } else if set >= sets.len() {
        Err(layout_message(layout.index, " references missing element set "@, set as nat))
    } else {
        match checked_elements(
            layout.index,
            sets[set as int].elements@,
            0,
            buffer as u32,
            semantics,
            formats,
        ) {
            Err(message) => Err(message),
            Ok(elements) => match checked_buffers(layout, buffer + 1, sets, semantics, formats) {
                Err(message) => Err(message),
                Ok(rest) => Ok(elements + rest),
            },
        }
    }
}

/// The layouts before the mapping is looked at.
pub open spec fn built_in_layouts() -> Seq<Option<LayoutView>> {
    Seq::new(
        LAYOUT_COUNT as nat,
        |i: int|
            if i < BUILT_IN_LAYOUTS {
                Some(LayoutView::BuiltIn(i))
            } else {
                None
            },
    )
}

/// The layouts after all entries of the mapping, the later of two for the same
/// layout counting, or the message of the first entry that is wrong.
pub open spec fn mapped_layouts(
    mapping: Seq<SShadowkeepVertexLayout>,
    sets: Seq<SShadowkeepVertexInputElementSet>,
    semantics: nat,
    formats: Seq<InputFormat>,
) -> Result<Seq<Option<LayoutView>>, Seq<char>>
    decreases mapping.len(),
{
    if mapping.len() == 0 {
        Ok(built_in_layouts())
    } else {
        match mapped_layouts(mapping.drop_last(), sets, semantics, formats) {
            Err(message) => Err(message),
            Ok(layouts) => {
                let layout = mapping.last();
                if layout.index >= LAYOUT_COUNT {
                    Err(
                        "Shadowkeep input layout index "@ + decimal_text(layout.index as nat)
                            + " exceeds 254"@,
                    )
                } else {
                    match checked_buffers(layout, 0, sets, semantics, formats) {
                        Err(message) => Err(message),
                        Ok(elements) => Ok(
                            layouts.update(
                                layout.index as int,
                                Some(LayoutView::Dynamic(elements)),
                            ),
                        ),
                    }
                }
            },
        }
    }
}

pub open spec fn plan_view(plan: Option<LayoutPlan>) -> Option<LayoutView> {
    match plan {
        Some(found) => Some(found@),
        None => None,
    }
}

/// The layouts of a package, by number.
#[derive(Debug)]
pub struct ShadowkeepInputLayouts {
    pub layouts: Vec<Option<LayoutPlan>>,
}

impl View for ShadowkeepInputLayouts {
    type V = Seq<Option<LayoutView>>;

    open spec fn view(&self) -> Seq<Option<LayoutView>> {
        self.layouts@.map_values(|plan: Option<LayoutPlan>| plan_view(plan))
    }
}

fn layout_failure(index: u8, rest: &str, number: u64) -> (error: Error)
    ensures
        error@ == layout_message(index, rest@, number as nat),
{
    let mut message = "input layout ".to_owned();
    message.append(decimal(index as u64).as_str());
    message.append(rest);
    message.append(decimal(number).as_str());
    Error { message }
}

fn check_element(
    index: u8,
    element: SShadowkeepVertexInputElement,
    buffer: u32,
    semantics: usize,
    formats: &[InputFormat],
) -> (result: Result<InputElement, Error>)
    ensures
        match result {
            Ok(found) => checked_element(index, element, buffer, semantics as nat, formats@)
                == Ok::<InputElement, Seq<char>>(found),
            Err(error) => checked_element(index, element, buffer, semantics as nat, formats@)
                == Err::<InputElement, Seq<char>>(error@),
        },
{
    if element.semantic as usize >= semantics {
        return Err(layout_failure(index, " has invalid semantic ", element.semantic as u64));
    }
    let format: usize = element.format as usize;
    if format >= formats.len() {
        return Err(layout_failure(index, " has invalid format ", element.format as u64));
    }
    if formats[format].hlsl_type.as_str().is_empty() {
        return Err(layout_failure(index, " uses unsupported format ", element.format as u64));
    }
    Ok(
        InputElement {
            semantic: element.semantic,
            semantic_index: element.semantic_index as u32,
            format: element.format,
            buffer_index: buffer,
            is_instance_data: false,
        },
    )
}

/// `done` before what follows, if that is well.
pub open spec fn joined_to(
    done: Seq<InputElement>,
    rest: Result<Seq<InputElement>, Seq<char>>,
) -> Result<Seq<InputElement>, Seq<char>> {
    match rest {
        Ok(elements) => Ok(done + elements),
        Err(message) => Err(message),
    }
}

fn push_elements(
    out: &mut Vec<InputElement>,
    index: u8,
    elements: &Vec<SShadowkeepVertexInputElement>,
    buffer: u32,
    semantics: usize,
    formats: &[InputFormat],
) -> (result: Result<(), Error>)
    ensures
        match result {
            Ok(_) => joined_to(
                old(out)@,
                checked_elements(index, elements@, 0, buffer, semantics as nat, formats@),
            ) == Ok::<Seq<InputElement>, Seq<char>>(final(out)@),
            Err(error) => checked_elements(
                index,
                elements@,
                0,
                buffer,
                semantics as nat,
                formats@,
            ) == Err::<Seq<InputElement>, Seq<char>>(error@),
        },
{
    let ghost start = out@;
    let ghost whole = checked_elements(index, elements@, 0, buffer, semantics as nat, formats@);
    let mut i: usize = 0;
    while i < elements.len()
        invariant
            i <= elements@.len(),
            whole == checked_elements(index, elements@, 0, buffer, semantics as nat, formats@),
            joined_to(start, whole) == joined_to(
                out@,
                checked_elements(
                    index,
                    elements@,
                    i as int,
                    buffer,
                    semantics as nat,
                    formats@,
                ),
            ),
        decreases elements@.len() - i,
    {
        let ghost before = out@;
        match check_element(index, elements[i], buffer, semantics, formats) {
            Ok(element) => {
                out.push(element);
                proof {
                    match checked_elements(
                        index,
                        elements@,
                        i + 1,
                        buffer,
                        semantics as nat,
                        formats@,
                    ) {
                        Ok(rest) => {
                            assert(before + (seq![element] + rest) =~= before.push(element) + rest);
                        },
                        Err(_) => {},
                    }
                }
            },
            Err(error) => return Err(error),
        }
        i = i + 1;
    }
    assert(out@ + Seq::<InputElement>::empty() =~= out@);
    Ok(())
}

fn layout_elements(
    layout: SShadowkeepVertexLayout,
    sets: &Vec<SShadowkeepVertexInputElementSet>,
    semantics: usize,
    formats: &[InputFormat],
) -> (result: Result<Vec<InputElement>, Error>)
    ensures
        match result {
            Ok(elements) => checked_buffers(layout, 0, sets@, semantics as nat, formats@) == Ok::<
                Seq<InputElement>,
                Seq<char>,
            >(elements@),
            Err(error) => checked_buffers(layout, 0, sets@, semantics as nat, formats@) == Err::<
                Seq<InputElement>,
                Seq<char>,
            >(error@),
        },
{
    let mut elements: Vec<InputElement> = Vec::new();
    let ghost whole = checked_buffers(layout, 0, sets@, semantics as nat, formats@);
    let mut buffer: u32 = 0;
    proof {
        match whole {
            Ok(all) => {
                assert(elements@ + all =~= all);
            },
            Err(_) => {},
        }
    }
    while buffer < 4
        invariant
            buffer <= 4,
            whole == checked_buffers(layout, 0, sets@, semantics as nat, formats@),
            whole == joined_to(
                elements@,
                checked_buffers(layout, buffer as int, sets@, semantics as nat, formats@),
            ),
        decreases 4 - buffer,
    {
        let set: u32 = match buffer {
            0 => layout.element_0,
            1 => layout.element_1,
            2 => layout.element_2,
            _ => layout.element_3,
        };
        if set != u32::MAX {
            if set as usize >= sets.len() {
                return Err(
                    layout_failure(layout.index, " references missing element set ", set as u64),
                );
            }
            let ghost before = elements@;
            match push_elements(
                &mut elements,
                layout.index,
                &sets[set as usize].elements,
                buffer,
                semantics,
                formats,
            ) {
                Ok(_) => {
                    proof {
                        let added = checked_elements(
                            layout.index,
                            sets@[set as int].elements@,
                            0,
                            buffer,
                            semantics as nat,
                            formats@,
                        )->Ok_0;
                        match checked_buffers(
                            layout,
                            buffer + 1,
                            sets@,
                            semantics as nat,
                            formats@,
                        ) {
                            Ok(rest) => {
                                assert(before + (added + rest) =~= before + added + rest);
                            },
                            Err(_) => {},
                        }
                    }
                },
                Err(error) => return Err(error),
            }
        }
        buffer = buffer + 1;
    }
    assert(elements@ + Seq::<InputElement>::empty() =~= elements@);
    Ok(elements)
}

impl ShadowkeepInputLayouts {
    /// Plan the layouts of a package. `semantics` is how many semantics there
    /// are.
    pub fn load(
        stored: &SShadowkeepVertexInputLayouts,
        semantics: usize,
        formats: &[InputFormat],
    ) -> (result: Result<ShadowkeepInputLayouts, Error>)
        ensures
            match result {
                Ok(layouts) => mapped_layouts(
                    stored.mapping.layouts@,
                    stored.element_sets.sets@,
                    semantics as nat,
                    formats@,
                ) == Ok::<Seq<Option<LayoutView>>, Seq<char>>(layouts@),
                Err(error) => mapped_layouts(
                    stored.mapping.layouts@,
                    stored.element_sets.sets@,
                    semantics as nat,
                    formats@,
                ) == Err::<Seq<Option<LayoutView>>, Seq<char>>(error@),
            },
    {
        let mut planned = ShadowkeepInputLayouts { layouts: Vec::new() };
        let mut k: usize = 0;
        while k < LAYOUT_COUNT
            invariant
                k <= LAYOUT_COUNT,
                planned.layouts@.len() == k,
                forall|j: int|
                    0 <= j < k ==> #[trigger] plan_view(planned.layouts@[j])
                        == built_in_layouts()[j],
            decreases LAYOUT_COUNT - k,
        {
            planned.layouts.push(
                if k < BUILT_IN_LAYOUTS {
                    Some(LayoutPlan::BuiltIn { index: k })
                } else {
                    None
                },
            );
            k = k + 1;
        }
        assert(planned@ =~= built_in_layouts());
        let mapping = &stored.mapping.layouts;
        let ghost sets = stored.element_sets.sets@;
        let ghost whole = mapped_layouts(mapping@, sets, semantics as nat, formats@);
        let mut i: usize = 0;
        proof {
            assert(mapping@.take(0) =~= Seq::<SShadowkeepVertexLayout>::empty());
        }
        while i < mapping.len()
            invariant
                i <= mapping@.len(),
                planned.layouts@.len() == LAYOUT_COUNT,
                sets == stored.element_sets.sets@,
                mapping == stored.mapping.layouts,
                mapped_layouts(mapping@.take(i as int), sets, semantics as nat, formats@) == Ok::<
                    Seq<Option<LayoutView>>,
                    Seq<char>,
                >(planned@),
            decreases mapping@.len() - i,
        {
            let layout = mapping[i];
            proof {
                assert(mapping@.take(i + 1).drop_last() =~= mapping@.take(i as int));
            }
            if layout.index == 255 {
                let mut message = "Shadowkeep input layout index ".to_owned();
                message.append(decimal(layout.index as u64).as_str());
                message.append(" exceeds 254");
                proof {
                    lemma_failure_stays(mapping@, sets, semantics as nat, formats@, i + 1);
                }
                return Err(Error { message });
            }
            match layout_elements(layout, &stored.element_sets.sets, semantics, formats) {
                Ok(elements) => {
                    let ghost before = planned@;
                    let ghost listed = elements@;
                    planned.layouts.set(
                        layout.index as usize,
                        Some(LayoutPlan::Dynamic { elements }),
                    );
                    assert(planned@ =~= before.update(
                        layout.index as int,
                        Some(LayoutView::Dynamic(listed)),
                    ));
                },
                Err(error) => {
                    proof {
                        lemma_failure_stays(mapping@, sets, semantics as nat, formats@, i + 1);
                    }
                    return Err(error);
                },
            }
            i = i + 1;
        }
        assert(mapping@.take(mapping@.len() as int) =~= mapping@);
        Ok(planned)
    }

    /// The layout with the given number.
    pub fn get(&self, index: usize) -> (result: Result<&LayoutPlan, Error>)
        ensures
            match result {
                Ok(plan) => index < self@.len() && self@[index as int] == Some(plan@),
                Err(error) => (index >= self@.len() || self@[index as int] is None) && error@
                    == "Shadowkeep input layout "@ + decimal_text(index as nat)
                    + " is unavailable"@,
            },
    {
        if index < self.layouts.len() {
            match &self.layouts[index] {
                Some(plan) => return Ok(plan),
                None => {},
            }
        }
        let mut message = "Shadowkeep input layout ".to_owned();
        message.append(decimal(index as u64).as_str());
        message.append(" is unavailable");
        Err(Error { message })
    }
}

proof fn lemma_failure_stays(
    mapping: Seq<SShadowkeepVertexLayout>,
    sets: Seq<SShadowkeepVertexInputElementSet>,
    semantics: nat,
    formats: Seq<InputFormat>,
    upto: int,
)
    requires
        0 <= upto <= mapping.len(),
        mapped_layouts(mapping.take(upto), sets, semantics, formats) is Err,
    ensures
        mapped_layouts(mapping, sets, semantics, formats) == mapped_layouts(
            mapping.take(upto),
            sets,
            semantics,
            formats,
        ),
    decreases mapping.len() - upto,
{
    if upto == mapping.len() {
        assert(mapping.take(upto) =~= mapping);
    } else {
        assert(mapping.take(upto + 1).drop_last() =~= mapping.take(upto));
        lemma_failure_stays(mapping, sets, semantics, formats, upto + 1);
    }
}

proof fn lemma_layout_count(
    mapping: Seq<SShadowkeepVertexLayout>,
    sets: Seq<SShadowkeepVertexInputElementSet>,
    semantics: nat,
    formats: Seq<InputFormat>,
    index: int,
)
    requires
        0 <= index < LAYOUT_COUNT,
        mapped_layouts(mapping, sets, semantics, formats) is Ok,
    ensures
        mapped_layouts(mapping, sets, semantics, formats)->Ok_0.len() == LAYOUT_COUNT,
        mapped_layouts(mapping, sets, semantics, formats)->Ok_0[index] is Some <==> index
            < BUILT_IN_LAYOUTS || exists|i: int|
            0 <= i < mapping.len() && (#[trigger] mapping[i]).index == index,
    decreases mapping.len(),
{
    if mapping.len() > 0 {
        let rest = mapping.drop_last();
        lemma_layout_count(rest, sets, semantics, formats, index);
        if exists|i: int| 0 <= i < rest.len() && (#[trigger] rest[i]).index == index {
            let i = choose|i: int| 0 <= i < rest.len() && (#[trigger] rest[i]).index == index;
            assert(mapping[i].index == index);
        }
        if mapping.last().index == index {
            assert(mapping[mapping.len() - 1].index == index);
        }
        if exists|i: int| 0 <= i < mapping.len() && (#[trigger] mapping[i]).index == index {
            let i = choose|i: int| 0 <= i < mapping.len() && (#[trigger] mapping[i]).index == index;
            if i < rest.len() {
                assert(rest[i].index == index);
            }
        }
    }
}

/// The available layouts are the built-in ones and those that the mapping
/// lists.
pub proof fn law_listed_layouts_are_available(
    mapping: Seq<SShadowkeepVertexLayout>,
    sets: Seq<SShadowkeepVertexInputElementSet>,
    semantics: nat,
    formats: Seq<InputFormat>,
    index: int,
)
    requires
        0 <= index < LAYOUT_COUNT,
        mapped_layouts(mapping, sets, semantics, formats) is Ok,
    ensures
        mapped_layouts(mapping, sets, semantics, formats)->Ok_0[index] is Some <==> index
            < BUILT_IN_LAYOUTS || exists|i: int|
            0 <= i < mapping.len() && (#[trigger] mapping[i]).index == index,
{
    lemma_layout_count(mapping, sets, semantics, formats, index);
}

/// The element stands in the set, with its semantic, its number and its format.
pub open spec fn is_element_of(
    sets: Seq<SShadowkeepVertexInputElementSet>,
    set: u32,
    element: InputElement,
) -> bool {
    &&& set < sets.len()
    &&& exists|k: int| {
        &&& 0 <= k < sets[set as int].elements@.len()
        &&& (#[trigger] sets[set as int].elements@[k]).semantic == element.semantic
        &&& sets[set as int].elements@[k].semantic_index == element.semantic_index
        &&& sets[set as int].elements@[k].format == element.format
    }
}

/// Every element of a layout comes from the element set that the layout names for the element's
/// buffer, keeps its semantic, its number and its format, and holds no instance data.
pub proof fn law_elements_come_from_their_buffer(
    layout: SShadowkeepVertexLayout,
    buffer: int,
    sets: Seq<SShadowkeepVertexInputElementSet>,
    semantics: nat,
    formats: Seq<InputFormat>,
    at: int,
)
    requires
        0 <= buffer <= 4,
        checked_buffers(layout, buffer, sets, semantics, formats) is Ok,
        0 <= at < checked_buffers(layout, buffer, sets, semantics, formats)->Ok_0.len(),
    ensures
        ({
            let element = checked_buffers(layout, buffer, sets, semantics, formats)->Ok_0[at];
            &&& buffer <= element.buffer_index < 4
            &&& !element.is_instance_data
            &&& element.buffer_index == 0 ==> is_element_of(sets, layout.element_0, element)
            &&& element.buffer_index == 1 ==> is_element_of(sets, layout.element_1, element)
            &&& element.buffer_index == 2 ==> is_element_of(sets, layout.element_2, element)
            &&& element.buffer_index == 3 ==> is_element_of(sets, layout.element_3, element)
        }),
    decreases 4 - buffer,
{
    let set = set_of(layout, buffer);
    if set == u32::MAX {
        law_elements_come_from_their_buffer(layout, buffer + 1, sets, semantics, formats, at);
    } else {
        let elements = checked_elements(
            layout.index,
            sets[set as int].elements@,
            0,
            buffer as u32,
            semantics,
            formats,
        )->Ok_0;
        if at < elements.len() {
            lemma_checked_elements(
                layout.index,
                sets[set as int].elements@,
                0,
                buffer as u32,
                semantics,
                formats,
                at,
            );
            let element = checked_buffers(layout, buffer, sets, semantics, formats)->Ok_0[at];
            assert(element == elements[at]);
            assert(element.buffer_index == buffer);
            assert(sets[set as int].elements@[at].semantic == element.semantic);
            assert(is_element_of(sets, set, element));
        } else {
            let rest = checked_buffers(layout, buffer + 1, sets, semantics, formats)->Ok_0;
            assert(checked_buffers(layout, buffer, sets, semantics, formats)->Ok_0 == elements
                + rest);
            law_elements_come_from_their_buffer(
                layout,
                buffer + 1,
                sets,
                semantics,
                formats,
                at - elements.len(),
            );
            assert((elements + rest)[at] == rest[at - elements.len()]);
        }
    }
}

proof fn lemma_checked_elements(
    index: u8,
    elements: Seq<SShadowkeepVertexInputElement>,
    from: int,
    buffer: u32,
    semantics: nat,
    formats: Seq<InputFormat>,
    at: int,
)
    requires
        0 <= from <= elements.len(),
        checked_elements(index, elements, from, buffer, semantics, formats) is Ok,
    ensures
        ({
            let checked = checked_elements(index, elements, from, buffer, semantics, formats)->Ok_0;
            &&& checked.len() == elements.len() - from
            &&& 0 <= at < checked.len() ==> {
                &&& checked[at].semantic == elements[from + at].semantic
                &&& checked[at].semantic_index == elements[from + at].semantic_index
                &&& checked[at].format == elements[from + at].format
                &&& checked[at].buffer_index == buffer
                &&& !checked[at].is_instance_data
                &&& elements[from + at].semantic < semantics
                &&& elements[from + at].format < formats.len()
            }
        }),
    decreases elements.len() - from,
{
    if from < elements.len() {
        lemma_checked_elements(index, elements, from + 1, buffer, semantics, formats, at - 1);
    }
}

} // verus!
