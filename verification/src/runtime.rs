//! The JVM settings of a profile, applied to the arguments of a launch.

use vstd::prelude::*;
use vstd::string::*;

use crate::command;
use crate::command::{find_jvm_boundary, insert_at};
use crate::text;
use crate::text::{decimal_text, has_prefix, split_words};

verus! {

/// The argument that limits the heap to `mb` megabytes.
pub open spec fn heap_argument(mb: u32) -> Seq<char> {
    "-Xmx"@ + text::decimal(mb as nat) + "M"@
}

/// Whether an argument limits the heap.
pub open spec fn limits_heap(arg: Seq<char>) -> bool {
    text::opens_with(arg, "-Xmx"@)
}

/// The arguments that a profile adds: the heap limit, where one is set that is
/// not zero, and the words of the extra arguments.
pub open spec fn profile_arguments(memory_mb: Option<u32>, extra: Option<Seq<char>>) -> Seq<
    Seq<char>,
> {
    (match memory_mb {
        Some(mb) => if mb > 0 {
            seq![heap_argument(mb)]
        } else {
            Seq::empty()
        },
        None => Seq::empty(),
    }) + match extra {
        Some(words) => text::words(words),
        None => Seq::empty(),
    }
}

/// The arguments that stay in front of the main class: all of them, or those
/// that do not limit the heap where the profile sets a limit.
pub open spec fn kept_arguments(args: Seq<Seq<char>>, memory_mb: Option<u32>) -> Seq<Seq<char>> {
    if memory_mb is Some {
        args.filter(|arg: Seq<char>| !limits_heap(arg))
    } else {
        args
    }
}

/// The arguments of a launch under the settings of a profile.
pub open spec fn overridden(
    args: Seq<Seq<char>>,
    main_class: Option<Seq<char>>,
    memory_mb: Option<u32>,
    extra: Option<Seq<char>>,
) -> Seq<Seq<char>> {
    let added = profile_arguments(memory_mb, extra);
    let at = command::jvm_boundary(args, main_class);
    if added.len() == 0 {
        args
    } else {
        kept_arguments(args.take(at), memory_mb) + added + args.skip(at)
    }
}

/// The extra arguments: the words of the setting.
pub fn parse_extra_jvm_arguments(raw: Option<&str>) -> (r: Vec<String>)
    ensures
        text::texts(r@) == match raw {
            Some(words) => text::words(words@),
            None => Seq::empty(),
        },
{
    match raw {
        Some(words) => split_words(words),
        None => {
            let none: Vec<String> = Vec::new();
            assert(text::texts(none@) =~= Seq::empty());
            none
        },
    }
}

/// The first `n` arguments without those that limit the heap.
fn without_heap_limits(args: &Vec<String>, n: usize) -> (r: Vec<String>)
    requires
        n <= args@.len(),
    ensures
        text::texts(r@) == text::texts(args@).take(n as int).filter(
            |arg: Seq<char>| !limits_heap(arg),
        ),
{
    let mut kept: Vec<String> = Vec::new();
    let ghost all = text::texts(args@);
    let ghost stays = |arg: Seq<char>| !limits_heap(arg);
    let mut i: usize = 0;
    proof {
        reveal(Seq::filter);
        assert(text::texts(kept@) =~= all.take(0).filter(stays));
    }
    while i < n
        invariant
            i <= n <= args@.len(),
            all == text::texts(args@),
            stays == (|arg: Seq<char>| !limits_heap(arg)),
            text::texts(kept@) == all.take(i as int).filter(stays),
        decreases n - i,
    {
        proof {
            reveal(Seq::filter);
            assert(all.take(i + 1).drop_last() =~= all.take(i as int));
        }
        let ghost before = text::texts(kept@);
        if !has_prefix(args[i].as_str(), "-Xmx") {
            kept.push(args[i].clone());
            assert(text::texts(kept@) =~= before.push(all[i as int]));
        }
        i = i + 1;
    }
    kept
}

/// Applies the JVM settings of a profile: they go immediately before the main
/// class, and a heap limit replaces the limits that stand there. Gives back how
/// many arguments were added.
pub fn apply_profile_runtime_jvm_overrides(
    args: &mut Vec<String>,
    main_class: Option<&str>,
    memory_mb: Option<u32>,
    extra_args: Option<&str>,
) -> (r: usize)
    ensures
        text::texts(final(args)@) == overridden(
            text::texts(old(args)@),
            text::opt_str(main_class),
            memory_mb,
            text::opt_str(extra_args),
        ),
        r == profile_arguments(memory_mb, text::opt_str(extra_args)).len(),
{
    let ghost before = text::texts(args@);
    let ghost added = profile_arguments(memory_mb, text::opt_str(extra_args));
    let mut insert_args: Vec<String> = Vec::new();
    if let Some(mb) = memory_mb {
        if mb > 0 {
            let mut limit = "-Xmx".to_owned();
            let number = decimal_text(mb as u128);
            limit.append(number.as_str());
            limit.append("M");
            insert_args.push(limit);
        }
    }
    let ghost limit = text::texts(insert_args@);
    let mut extra = parse_extra_jvm_arguments(extra_args);
    proof {
        text::lemma_texts_add(insert_args@, extra@);
    }
    insert_args.append(&mut extra);
    assert(text::texts(insert_args@) =~= added);
    if insert_args.len() == 0 {
        return 0;
    }
    let count = insert_args.len();
    let at = find_jvm_boundary(args, main_class);
    if memory_mb.is_some() {
        let mut kept = without_heap_limits(args, at);
        let mut tail = args.split_off(at);
        proof {
            text::lemma_texts_add(kept@, insert_args@);
            text::lemma_texts_add(kept@ + insert_args@, tail@);
            assert(text::texts(tail@) =~= before.skip(at as int));
        }
        kept.append(&mut insert_args);
        kept.append(&mut tail);
        *args = kept;
    } else {
        proof {
            let head = args@.take(at as int);
            let tail = args@.skip(at as int);
            text::lemma_texts_add(head, insert_args@);
            text::lemma_texts_add(head + insert_args@, tail);
            assert(text::texts(head) =~= before.take(at as int));
            assert(text::texts(tail) =~= before.skip(at as int));
        }
        insert_at(args, at, insert_args);
    }
    count
}

proof fn lemma_filtered(args: Seq<Seq<char>>, keep: spec_fn(Seq<char>) -> bool)
    ensures
        forall|i: int| 0 <= i < args.filter(keep).len() ==> keep(#[trigger] args.filter(keep)[i]),
    decreases args.len(),
{
    reveal(Seq::filter);
    if args.len() > 0 {
        lemma_filtered(args.drop_last(), keep);
    }
}

/// No earlier heap limit survives: under a profile that sets a limit, the
/// arguments in front of the added ones do not limit the heap, and the limit is
/// the first of the added ones.
pub proof fn law_heap_limit_is_replaced(
    args: Seq<Seq<char>>,
    main_class: Option<Seq<char>>,
    mb: u32,
    extra: Option<Seq<char>>,
)
    requires
        mb > 0,
    ensures
        ({
            let kept = kept_arguments(
                args.take(command::jvm_boundary(args, main_class)),
                Some(mb),
            );
            let result = overridden(args, main_class, Some(mb), extra);
            &&& kept.len() < result.len()
            &&& result[kept.len() as int] == heap_argument(mb)
            &&& forall|i: int| 0 <= i < kept.len() ==> !limits_heap(#[trigger] result[i])
        }),
{
    let at = command::jvm_boundary(args, main_class);
    let stays = |arg: Seq<char>| !limits_heap(arg);
    lemma_filtered(args.take(at), stays);
    let kept = kept_arguments(args.take(at), Some(mb));
    let added = profile_arguments(Some(mb), extra);
    assert(kept == args.take(at).filter(stays));
    assert(added[0] == heap_argument(mb));
    let result = overridden(args, main_class, Some(mb), extra);
    assert(result == kept + added + args.skip(at));
    assert forall|i: int| 0 <= i < kept.len() implies !limits_heap(#[trigger] result[i]) by {
        assert(result[i] == kept[i]);
        assert(stays(args.take(at).filter(stays)[i]));
    }
}

/// The arguments of the game are left alone: what stands at and after the main
/// class is the end of the result.
pub proof fn law_game_arguments_are_kept(
    args: Seq<Seq<char>>,
    main_class: Option<Seq<char>>,
    memory_mb: Option<u32>,
    extra: Option<Seq<char>>,
)
    ensures
        ({
            let rest = args.skip(command::jvm_boundary(args, main_class));
            let result = overridden(args, main_class, memory_mb, extra);
            &&& rest.len() <= result.len()
            &&& result.skip(result.len() - rest.len()) == rest
        }),
{
    command::law_boundary_is_first_main_class(args, main_class);
    let at = command::jvm_boundary(args, main_class);
    let rest = args.skip(at);
    let result = overridden(args, main_class, memory_mb, extra);
    assert(result.skip(result.len() - rest.len()) =~= rest);
}

/// What a profile adds to the JVM arguments: the heap limit in megabytes, where one
/// above zero is set, and behind it the words of the extra arguments.
pub proof fn law_profile_adds_its_settings(memory_mb: Option<u32>, extra: Option<Seq<char>>)
    ensures
        ({
            let words = match extra {
                Some(setting) => text::words(setting),
                None => Seq::empty(),
            };
            &&& memory_mb matches Some(mb) ==> (mb > 0 ==> profile_arguments(memory_mb, extra)
                == seq!["-Xmx"@ + text::decimal(mb as nat) + "M"@] + words)
            &&& memory_mb is None || memory_mb == Some(0u32) ==> profile_arguments(memory_mb, extra)
                == words
        }),
{
    let words = match extra {
        Some(setting) => text::words(setting),
        None => Seq::empty(),
    };
    assert(Seq::<Seq<char>>::empty() + words =~= words);
}

/// Where the settings of a profile go: right in front of the main class, or at the
/// end where there is none among the arguments. Without settings nothing changes, and
/// without a heap limit nothing is taken out.
pub proof fn law_settings_precede_the_main_class(
    jvm: Seq<Seq<char>>,
    main: Seq<char>,
    game: Seq<Seq<char>>,
    memory_mb: Option<u32>,
    extra: Option<Seq<char>>,
)
    requires
        !jvm.contains(main),
    ensures
        ({
            let args = jvm + seq![main] + game;
            let added = profile_arguments(memory_mb, extra);
            let result = overridden(args, Some(main), memory_mb, extra);
            &&& added.len() == 0 ==> result == args
            &&& added.len() > 0 && memory_mb is None ==> result == jvm + added + seq![main] + game
            &&& added.len() > 0 && memory_mb is Some ==> result == jvm.filter(
                |arg: Seq<char>| !text::opens_with(arg, "-Xmx"@),
            ) + added + seq![main] + game
            &&& added.len() > 0 && memory_mb is None ==> overridden(jvm, None, memory_mb, extra)
                == jvm + added
        }),
{
    let args = jvm + seq![main] + game;
    let added = profile_arguments(memory_mb, extra);
    command::law_boundary_is_first_main_class(args, Some(main));
    let at = command::jvm_boundary(args, Some(main));
    assert(args[jvm.len() as int] == main);
    assert(args.contains(main));
    if at < jvm.len() {
        assert(args[at] == jvm[at]);
        assert(jvm.contains(main));
    }
    assert(at == jvm.len());
    assert(args.take(at) =~= jvm);
    assert(args.skip(at) =~= seq![main] + game);
    let stays = |arg: Seq<char>| !limits_heap(arg);
    let plain = |arg: Seq<char>| !text::opens_with(arg, "-Xmx"@);
    assert(stays =~= plain);
    let result = overridden(args, Some(main), memory_mb, extra);
    if added.len() > 0 {
        if memory_mb is None {
            assert(result =~= jvm + added + seq![main] + game);
            assert(jvm.take(jvm.len() as int) =~= jvm);
            assert(jvm.skip(jvm.len() as int) =~= Seq::<Seq<char>>::empty());
            assert(overridden(jvm, None, memory_mb, extra) =~= jvm + added);
        } else {
            assert(result =~= jvm.filter(plain) + added + seq![main] + game);
        }
    }
}

} // verus!
