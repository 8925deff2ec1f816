//! Pages: one child web view per address, each kept alive under its own label.
use crate::address::{parse_url, parsed_view, url_scheme};
use crate::effect::{effect_views, lemma_effect_views_push, pages_after, visible_after, Effect,
    EffectView, Notice, NoticeView};
use crate::error::{LauncherError, LauncherErrorView};
use crate::text::{append_hex, hex, law_hex_spells_the_value, lemma_hex_injective, lemma_hex_len,
    number, starts_with, texts};
use vstd::prelude::*;
use vstd::string::*;
use vstd::utf8::encode_utf8;

verus! {

broadcast use lemma_effect_views_push;

/// What the label of every page begins with.
pub const WEBVIEW_PREFIX: &'static str = "dsh-";

/// The label of the main web view, which is not a page.
pub const MAIN_LABEL: &'static str = "main";

/// The height of the top bar in logical pixels.
pub const TOP_BAR_HEIGHT: u32 = 36;

/// The script that makes a page load its contents again.
pub const RELOAD_SCRIPT: &'static str = "window.location.reload(true)";

/// The 64-bit FNV-1a hash of a byte sequence.
pub open spec fn fnv1a(bytes: Seq<u8>) -> u64
    decreases bytes.len(),
{
    if bytes.len() == 0 {
        0xcbf29ce484222325
    } else {
        (((fnv1a(bytes.drop_last()) ^ (bytes.last() as u64)) * 0x100000001b3)
            % 0x1_0000_0000_0000_0000) as u64
    }
}

/// The label of the page for an address.
pub open spec fn page_label(url: Seq<char>) -> Seq<char> {
    WEBVIEW_PREFIX@ + hex(fnv1a(encode_utf8(url)) as nat, 16)
}

/// The label is that of a page.
pub open spec fn is_page_label(label: Seq<char>) -> bool {
    WEBVIEW_PREFIX@.is_prefix_of(label)
}

/// The labels of pages among `labels`, in their order.
pub open spec fn page_labels(labels: Seq<Seq<char>>) -> Seq<Seq<char>> {
    labels.filter(|label: Seq<char>| is_page_label(label))
}

/// Hiding every page among `labels`.
pub open spec fn hide_pages(labels: Seq<Seq<char>>) -> Seq<EffectView> {
    page_labels(labels).map_values(|label: Seq<char>| EffectView::Hide(label))
}

/// Placing every page among `labels` below the top bar.
pub open spec fn place_pages(labels: Seq<Seq<char>>) -> Seq<EffectView> {
    page_labels(labels).map_values(|label: Seq<char>| EffectView::Place(label))
}

/// The windows and web views that exist at some moment.
#[derive(Debug, PartialEq, Eq)]
pub struct Host {
    /// The labels of all web views.
    pub labels: Vec<String>,
    /// The main window still has its main web view.
    pub main_view: bool,
    /// The main window exists.
    pub main_window: bool,
}

/// The contents of a [`Host`].
pub struct HostView {
    pub labels: Seq<Seq<char>>,
    pub main_view: bool,
    pub main_window: bool,
}

impl View for Host {
    type V = HostView;

    open spec fn view(&self) -> HostView {
        HostView {
            labels: texts(self.labels@),
            main_view: self.main_view,
            main_window: self.main_window,
        }
    }
}

/// The stable label of the page for an address.
pub fn webview_label_for(url: &str) -> (label: String)
    ensures
        label@ == page_label(url@),
{
    let bytes: &[u8] = url.as_bytes();
    let n: usize = bytes.len();
    let mut h: u64 = 0xcbf29ce484222325;
    let mut i: usize = 0;
    while i < n
        invariant
            n == bytes@.len(),
            i <= n,
            h == fnv1a(bytes@.take(i as int)),
        decreases n - i,
    {
        assert(bytes@.take(i + 1).drop_last() =~= bytes@.take(i as int));
        h = h ^ (bytes[i] as u64);
        h = h.wrapping_mul(0x100000001b3);
        i = i + 1;
    }
    assert(bytes@.take(n as int) =~= bytes@);
    let mut label: String = WEBVIEW_PREFIX.to_owned();
    append_hex(&mut label, h, 16);
    label
}

/// Whether a web view label belongs to a page.
pub fn is_dsh_webview(label: &str) -> (yes: bool)
    ensures
        yes == is_page_label(label@),
{
    starts_with(label, WEBVIEW_PREFIX)
}

/// Whether `label` is among `labels`.
pub fn has_label(labels: &Vec<String>, label: &String) -> (found: bool)
    ensures
        found == texts(labels@).contains(label@),
{
    let n: usize = labels.len();
    let mut i: usize = 0;
    while i < n
        invariant
            n == labels@.len(),
            i <= n,
            forall|j: int| 0 <= j < i ==> #[trigger] labels@[j]@ != label@,
        decreases n - i,
    {
        if labels[i] == *label {
            assert(texts(labels@)[i as int] == label@);
            return true;
        }
        i = i + 1;
    }
    assert forall|j: int| 0 <= j < n implies #[trigger] texts(labels@)[j] != label@ by {
        assert(labels@[j]@ != label@);
    }
    false
}

proof fn lemma_page_labels_step(labels: Seq<Seq<char>>, i: int)
    requires
        0 <= i < labels.len(),
    ensures
        is_page_label(labels[i]) ==> page_labels(labels.take(i + 1)) == page_labels(
            labels.take(i),
        ).push(labels[i]),
        !is_page_label(labels[i]) ==> page_labels(labels.take(i + 1)) == page_labels(labels.take(i)),
{
    reveal(Seq::filter);
    assert(labels.take(i + 1).drop_last() =~= labels.take(i));
}

/// Hides every page, so that the terminal or the loading overlay is seen. Pages are kept alive.
pub fn hide_all_webviews(labels: &Vec<String>) -> (effects: Vec<Effect>)
    ensures
        effect_views(effects@) == hide_pages(texts(labels@)),
{
    let n: usize = labels.len();
    let mut effects: Vec<Effect> = Vec::new();
    let mut i: usize = 0;
    proof {
        reveal(Seq::filter);
        assert(effect_views(effects@) =~= hide_pages(texts(labels@).take(0)));
    }
    while i < n
        invariant
            n == labels@.len(),
            i <= n,
            effect_views(effects@) == hide_pages(texts(labels@).take(i as int)),
        decreases n - i,
    {
        proof {
            lemma_page_labels_step(texts(labels@), i as int);
        }
        if is_dsh_webview(labels[i].as_str()) {
            let ghost before = effects@;
            effects.push(Effect::Hide(labels[i].clone()));
            assert(hide_pages(texts(labels@).take(i + 1)) =~= effect_views(before).push(
                EffectView::Hide(labels@[i as int]@),
            ));
        }
        i = i + 1;
    }
    assert(texts(labels@).take(n as int) =~= texts(labels@));
    effects
}

/// Makes every page fill the area below the top bar again.
pub fn relayout_dsh_webview(labels: &Vec<String>) -> (effects: Vec<Effect>)
    ensures
        effect_views(effects@) == place_pages(texts(labels@)),
{
    let n: usize = labels.len();
    let mut effects: Vec<Effect> = Vec::new();
    let mut i: usize = 0;
    proof {
        reveal(Seq::filter);
        assert(effect_views(effects@) =~= place_pages(texts(labels@).take(0)));
    }
    while i < n
        invariant
            n == labels@.len(),
            i <= n,
            effect_views(effects@) == place_pages(texts(labels@).take(i as int)),
        decreases n - i,
    {
        proof {
            lemma_page_labels_step(texts(labels@), i as int);
        }
        if is_dsh_webview(labels[i].as_str()) {
            let ghost before = effects@;
            effects.push(Effect::Place(labels[i].clone()));
            assert(place_pages(texts(labels@).take(i + 1)) =~= effect_views(before).push(
                EffectView::Place(labels@[i as int]@),
            ));
        }
        i = i + 1;
    }
    assert(texts(labels@).take(n as int) =~= texts(labels@));
    effects
}

/// What making sure that a page exists comes to, given what the URL parser makes of its address.
pub open spec fn ensure_outcome(
    url: Seq<char>,
    host: HostView,
    parsed: Result<Seq<char>, Seq<char>>,
) -> Result<Seq<EffectView>, LauncherErrorView> {
    if host.labels.contains(page_label(url)) {
        Ok(Seq::empty())
    } else if !host.main_window {
        Err(LauncherErrorView::NoMainWindow)
    } else if parsed is Ok {
        Ok(seq![EffectView::Create { label: page_label(url), url }])
    } else {
        Ok(Seq::empty())
    }
}

/// The contents of a list of effects or of the error in its place.
pub open spec fn outcome_view(outcome: Result<Vec<Effect>, LauncherError>) -> Result<
    Seq<EffectView>,
    LauncherErrorView,
> {
    match outcome {
        Ok(effects) => Ok(effect_views(effects@)),
        Err(error) => Err(error@),
    }
}

/// Creates the page for an address unless it exists. An address that is no URL creates nothing.
pub fn ensure_webview(url: &str, host: &Host) -> (outcome: Result<Vec<Effect>, LauncherError>)
    ensures
        outcome_view(outcome) == ensure_outcome(url@, host@, url_scheme(url@)),
{
    let parsed: Result<String, String> = parse_url(url);
    ensure_parsed(url, host, &parsed)
}

/// Creates the page for an address unless it exists, given what the URL parser made of the address.
pub fn ensure_parsed(url: &str, host: &Host, parsed: &Result<String, String>) -> (outcome: Result<
    Vec<Effect>,
    LauncherError,
>)
    ensures
        outcome_view(outcome) == ensure_outcome(url@, host@, parsed_view(*parsed)),
{
    let label: String = webview_label_for(url);
    let mut effects: Vec<Effect> = Vec::new();
    assert(effect_views(effects@) =~= Seq::empty());
    if has_label(&host.labels, &label) {
        return Ok(effects);
    }
    if !host.main_window {
        return Err(LauncherError::NoMainWindow);
    }
    if parsed.is_ok() {
        effects.push(Effect::Create { label, url: url.to_owned() });
        assert(effect_views(effects@) =~= seq![
            EffectView::Create { label: page_label(url@), url: url@ },
        ]);
    }
    Ok(effects)
}

/// What follows the attempt to create a page: a new page stays hidden while it loads.
pub open spec fn after_creation(label: Seq<char>, created: bool) -> Seq<EffectView> {
    if created {
        seq![EffectView::Hide(label)]
    } else {
        Seq::empty()
    }
}

/// What follows a report on the loading of a page: a loaded page shows itself.
pub open spec fn after_load(label: Seq<char>, finished: bool) -> Seq<EffectView> {
    if finished {
        seq![EffectView::Show(label), EffectView::Emit(NoticeView::PageShown)]
    } else {
        Seq::empty()
    }
}

/// Hides a page that was just created; it shows itself once it has loaded.
pub fn page_created(label: &String, created: bool) -> (effects: Vec<Effect>)
    ensures
        effect_views(effects@) == after_creation(label@, created),
{
    let mut effects: Vec<Effect> = Vec::new();
    if created {
        effects.push(Effect::Hide(label.clone()));
    }
    assert(effect_views(effects@) =~= after_creation(label@, created));
    effects
}

/// Shows a page whose loading has finished, and tells the top bar.
pub fn page_loaded(label: &String, finished: bool) -> (effects: Vec<Effect>)
    ensures
        effect_views(effects@) == after_load(label@, finished),
{
    let mut effects: Vec<Effect> = Vec::new();
    if finished {
        effects.push(Effect::Show(label.clone()));
        effects.push(Effect::Emit(Notice::PageShown));
    }
    assert(effect_views(effects@) =~= after_load(label@, finished));
    effects
}

/// Every page label is recognized as one, and has four plus sixteen characters.
pub proof fn law_page_label_is_recognized(url: Seq<char>)
    ensures
        is_page_label(page_label(url)),
        page_label(url).len() == 20,
{
    reveal_strlit("dsh-");
    lemma_hex_len(fnv1a(encode_utf8(url)) as nat, 16);
    assert(page_label(url).subrange(0, WEBVIEW_PREFIX@.len() as int) =~= WEBVIEW_PREFIX@);
}

/// The label of an address spells its hash after the four characters that all labels begin with.
pub proof fn law_label_spells_the_hash(url: Seq<char>)
    ensures
        page_label(url).len() == 20,
        page_label(url).take(4) == "dsh-"@,
        number(page_label(url).skip(4), 16) == fnv1a(encode_utf8(url)),
{
    let h = fnv1a(encode_utf8(url)) as nat;
    reveal_strlit("dsh-");
    assert(vstd::arithmetic::power::pow(16, 16) == 0x1_0000_0000_0000_0000) by {
        reveal_with_fuel(vstd::arithmetic::power::pow, 17);
    }
    law_hex_spells_the_value(h, 16);
    assert(page_label(url).take(4) =~= "dsh-"@);
    assert(page_label(url).skip(4) =~= hex(h, 16));
}

/// The hash takes one byte after another: each is mixed into the hash of those before it, and the
/// hash of no bytes is the offset basis.
pub proof fn law_hash_takes_byte_after_byte(bytes: Seq<u8>, byte: u8)
    ensures
        fnv1a(Seq::empty()) == 0xcbf29ce484222325,
        fnv1a(bytes.push(byte)) == ((fnv1a(bytes) ^ (byte as u64)) * 0x100000001b3)
            % 0x1_0000_0000_0000_0000,
{
    assert(bytes.push(byte).drop_last() =~= bytes);
}

/// Two addresses share a label only where their hashes are equal.
pub proof fn law_labels_differ_with_hashes(a: Seq<char>, b: Seq<char>)
    ensures
        page_label(a) == page_label(b) <==> fnv1a(encode_utf8(a)) == fnv1a(encode_utf8(b)),
{
    let x = fnv1a(encode_utf8(a));
    let y = fnv1a(encode_utf8(b));
    if page_label(a) == page_label(b) {
        let n = WEBVIEW_PREFIX@.len() as int;
        assert(page_label(a).skip(n) =~= hex(x as nat, 16));
        assert(page_label(b).skip(n) =~= hex(y as nat, 16));
        assert(vstd::arithmetic::power::pow(16, 16) == 0x1_0000_0000_0000_0000) by {
            reveal_with_fuel(vstd::arithmetic::power::pow, 17);
        }
        lemma_hex_injective(x as nat, y as nat, 16);
    }
}

/// The multiplication in the hash loses nothing: the multiplier is odd, so it has an inverse.
proof fn lemma_multiplier_is_invertible(x: u64, y: u64)
    requires
        (x * 0x100000001b3) % 0x1_0000_0000_0000_0000 == (y * 0x100000001b3)
            % 0x1_0000_0000_0000_0000,
    ensures
        x == y,
{
    lemma_multiplied_back(x);
    lemma_multiplied_back(y);
}

/// Multiplying by the inverse of the hash's multiplier undoes the multiplication.
proof fn lemma_multiplied_back(x: u64)
    ensures
        ((x * 0x100000001b3) % 0x1_0000_0000_0000_0000) * 0xce965057aff6957b
            % 0x1_0000_0000_0000_0000 == x,
{
    let m: int = 0x1_0000_0000_0000_0000;
    let p: int = 0x100000001b3;
    let q: int = 0xce965057aff6957b;
    let k: int = 887285111055;
    let v: int = x as int;
    vstd::arithmetic::div_mod::lemma_mul_mod_noop_left(v * p, q, m);
    assert(p * q == m * k + 1);
    assert(v * p * q == m * (v * k) + v) by (nonlinear_arith)
        requires
            p * q == m * k + 1,
    ;
    vstd::arithmetic::div_mod::lemma_mod_multiples_vanish(v * k, v, m);
    vstd::arithmetic::div_mod::lemma_small_mod(x as nat, m as nat);
}

/// Hashes that differ still differ after one more byte, if it is the same for both.
proof fn lemma_hash_keeps_difference(a: Seq<u8>, b: Seq<u8>)
    requires
        a.len() > 0,
        b.len() > 0,
        fnv1a(a) == fnv1a(b),
    ensures
        a.last() == b.last() ==> fnv1a(a.drop_last()) == fnv1a(b.drop_last()),
        a.drop_last() == b.drop_last() ==> a.last() == b.last(),
{
    let x = fnv1a(a.drop_last());
    let y = fnv1a(b.drop_last());
    let c = a.last() as u64;
    let d = b.last() as u64;
    lemma_multiplier_is_invertible(x ^ c, y ^ d);
    assert(c == d && x ^ c == y ^ d ==> x == y) by (bit_vector);
    assert(x == y && x ^ c == y ^ d ==> c == d) by (bit_vector);
}

/// Byte sequences of one length that differ at one place only have different hashes.
proof fn lemma_hash_sees_one_byte(a: Seq<u8>, b: Seq<u8>, i: int)
    requires
        a.len() == b.len(),
        0 <= i < a.len(),
        a[i] != b[i],
        forall|j: int| 0 <= j < a.len() && j != i ==> a[j] == b[j],
    ensures
        fnv1a(a) != fnv1a(b),
    decreases a.len(),
{
    if fnv1a(a) == fnv1a(b) {
        lemma_hash_keeps_difference(a, b);
        if i == a.len() - 1 {
            assert(a.drop_last() =~= b.drop_last());
        } else {
            lemma_hash_sees_one_byte(a.drop_last(), b.drop_last(), i);
        }
    }
}

/// Two addresses of the same length in bytes that differ in one byte only have different labels,
/// and so pages of their own.
pub proof fn law_one_byte_makes_another_label(a: Seq<char>, b: Seq<char>, i: int)
    requires
        encode_utf8(a).len() == encode_utf8(b).len(),
        0 <= i < encode_utf8(a).len(),
        encode_utf8(a)[i] != encode_utf8(b)[i],
        forall|j: int|
            0 <= j < encode_utf8(a).len() && j != i ==> encode_utf8(a)[j] == encode_utf8(b)[j],
    ensures
        page_label(a) != page_label(b),
{
    lemma_hash_sees_one_byte(encode_utf8(a), encode_utf8(b), i);
    law_labels_differ_with_hashes(a, b);
}

/// The main web view is never taken for a page.
pub proof fn law_main_view_is_no_page()
    ensures
        !is_page_label(MAIN_LABEL@),
{
    reveal_strlit("main");
    reveal_strlit("dsh-");
    assert(MAIN_LABEL@[0] == 'm');
    assert(WEBVIEW_PREFIX@[0] == 'd');
    if is_page_label(MAIN_LABEL@) {
        assert(MAIN_LABEL@.subrange(0, 4)[0] == WEBVIEW_PREFIX@[0]);
    }
}

/// Hiding all pages destroys none, and leaves no page among the labels visible.
pub proof fn law_hiding_keeps_pages(
    pages: Set<Seq<char>>,
    visible: Set<Seq<char>>,
    labels: Seq<Seq<char>>,
)
    ensures
        pages_after(pages, hide_pages(labels)) == pages,
        visible_after(visible, hide_pages(labels)) == visible.difference(
            page_labels(labels).to_set(),
        ),
        forall|label: Seq<char>|
            #[trigger] page_labels(labels).contains(label) <==> labels.contains(label)
                && is_page_label(label),
{
    lemma_hiding(pages, visible, page_labels(labels));
    let pred = |label: Seq<char>| is_page_label(label);
    assert forall|label: Seq<char>| #[trigger]
        page_labels(labels).contains(label) <==> labels.contains(label) && is_page_label(label) by {
        lemma_filter_contains(labels, pred, label);
    }
}

/// A label is that of a page exactly where it begins with the four characters `dsh-`.
pub proof fn law_page_labels_begin_alike(label: Seq<char>)
    ensures
        is_page_label(label) <==> "dsh-"@.is_prefix_of(label),
        is_page_label(label) <==> label.len() >= 4 && label[0] == 'd' && label[1] == 's' && label[2]
            == 'h' && label[3] == '-',
{
    reveal_strlit("dsh-");
    if label.len() >= 4 {
        let head = label.subrange(0, 4);
        assert(head[0] == label[0] && head[1] == label[1] && head[2] == label[2] && head[3]
            == label[3]);
        if head[0] == 'd' && head[1] == 's' && head[2] == 'h' && head[3] == '-' {
            assert(head =~= "dsh-"@);
        }
    }
}

/// Hiding all pages hides each of them and does nothing else; what is no page is left alone.
pub proof fn law_hiding_hides_every_page(labels: Seq<Seq<char>>)
    ensures
        forall|i: int|
            0 <= i < hide_pages(labels).len() ==> (#[trigger] hide_pages(
                labels,
            )[i] matches EffectView::Hide(label) && labels.contains(label)
                && "dsh-"@.is_prefix_of(label)),
        forall|label: Seq<char>|
            labels.contains(label) && #[trigger] "dsh-"@.is_prefix_of(label) ==> hide_pages(
                labels,
            ).contains(EffectView::Hide(label)),
{
    let chosen = page_labels(labels);
    let hides = hide_pages(labels);
    law_hiding_keeps_pages(Set::empty(), Set::empty(), labels);
    assert forall|i: int| 0 <= i < hides.len() implies (#[trigger] hides[i] matches EffectView::Hide(
        label,
    ) && labels.contains(label) && "dsh-"@.is_prefix_of(label)) by {
        assert(chosen.contains(chosen[i]));
        law_page_labels_begin_alike(chosen[i]);
    }
    assert forall|label: Seq<char>|
        labels.contains(label) && #[trigger] "dsh-"@.is_prefix_of(label) implies hides.contains(
        EffectView::Hide(label),
    ) by {
        law_page_labels_begin_alike(label);
        assert(chosen.contains(label));
        let i = choose|i: int| 0 <= i < chosen.len() && chosen[i] == label;
        assert(hides[i] == EffectView::Hide(label));
    }
}

/// Placing all pages places each of them and does nothing else; what is no page is left alone.
pub proof fn law_placing_places_every_page(labels: Seq<Seq<char>>)
    ensures
        forall|i: int|
            0 <= i < place_pages(labels).len() ==> (#[trigger] place_pages(
                labels,
            )[i] matches EffectView::Place(label) && labels.contains(label)
                && "dsh-"@.is_prefix_of(label)),
        forall|label: Seq<char>|
            labels.contains(label) && #[trigger] "dsh-"@.is_prefix_of(label) ==> place_pages(
                labels,
            ).contains(EffectView::Place(label)),
{
    let chosen = page_labels(labels);
    let places = place_pages(labels);
    law_hiding_keeps_pages(Set::empty(), Set::empty(), labels);
    assert forall|i: int|
        0 <= i < places.len() implies (#[trigger] places[i] matches EffectView::Place(label)
        && labels.contains(label) && "dsh-"@.is_prefix_of(label)) by {
        assert(chosen.contains(chosen[i]));
        law_page_labels_begin_alike(chosen[i]);
    }
    assert forall|label: Seq<char>|
        labels.contains(label) && #[trigger] "dsh-"@.is_prefix_of(label) implies places.contains(
        EffectView::Place(label),
    ) by {
        law_page_labels_begin_alike(label);
        assert(chosen.contains(label));
        let i = choose|i: int| 0 <= i < chosen.len() && chosen[i] == label;
        assert(places[i] == EffectView::Place(label));
    }
}

proof fn lemma_filter_contains(
    labels: Seq<Seq<char>>,
    pred: spec_fn(Seq<char>) -> bool,
    label: Seq<char>,
)
    ensures
        labels.filter(pred).contains(label) <==> labels.contains(label) && pred(label),
    decreases labels.len(),
{
    reveal(Seq::filter);
    if labels.len() > 0 {
        let rest = labels.drop_last();
        lemma_filter_contains(rest, pred, label);
        assert(labels =~= rest.push(labels.last()));
        assert(labels.contains(label) <==> rest.contains(label) || label == labels.last()) by {
            if rest.contains(label) {
                let i = choose|i: int| 0 <= i < rest.len() && rest[i] == label;
                assert(labels[i] == label);
            }
            if label == labels.last() {
                assert(labels[labels.len() - 1] == label);
            }
            if labels.contains(label) && label != labels.last() {
                let i = choose|i: int| 0 <= i < labels.len() && labels[i] == label;
                assert(rest[i] == label);
            }
        }
        if pred(labels.last()) {
            let kept = rest.filter(pred);
            assert(labels.filter(pred) == kept.push(labels.last()));
            if kept.contains(label) {
                let i = choose|i: int| 0 <= i < kept.len() && kept[i] == label;
                assert(kept.push(labels.last())[i] == label);
            }
            if label == labels.last() {
                assert(kept.push(labels.last())[kept.len() as int] == label);
            }
            if kept.push(labels.last()).contains(label) && label != labels.last() {
                let all = kept.push(labels.last());
                let i = choose|i: int| 0 <= i < all.len() && all[i] == label;
                assert(kept[i] == label);
            }
        }
    }
}

proof fn lemma_hiding(pages: Set<Seq<char>>, visible: Set<Seq<char>>, chosen: Seq<Seq<char>>)
    ensures
        pages_after(pages, chosen.map_values(|label: Seq<char>| EffectView::Hide(label))) == pages,
        visible_after(visible, chosen.map_values(|label: Seq<char>| EffectView::Hide(label)))
            == visible.difference(chosen.to_set()),
    decreases chosen.len(),
{
    let f = |label: Seq<char>| EffectView::Hide(label);
    if chosen.len() > 0 {
        let rest = chosen.drop_last();
        lemma_hiding(pages, visible, rest);
        assert(chosen.map_values(f).drop_last() =~= rest.map_values(f));
        assert(chosen.map_values(f).last() == EffectView::Hide(chosen.last()));
        assert(chosen =~= rest.push(chosen.last()));
        assert forall|label: Seq<char>|
            visible.difference(rest.to_set()).remove(chosen.last()).contains(label)
                <==> #[trigger] visible.difference(chosen.to_set()).contains(label) by {
            if rest.contains(label) {
                let i = choose|i: int| 0 <= i < rest.len() && rest[i] == label;
                assert(chosen[i] == label);
            }
            if label == chosen.last() {
                assert(chosen[chosen.len() - 1] == label);
            }
            if chosen.contains(label) && label != chosen.last() {
                let i = choose|i: int| 0 <= i < chosen.len() && chosen[i] == label;
                assert(rest[i] == label);
            }
        }
        assert(visible.difference(rest.to_set()).remove(chosen.last()) =~= visible.difference(
            chosen.to_set(),
        ));
    } else {
        assert(visible.difference(chosen.to_set()) =~= visible);
    }
}

} // verus!
