use vstd::prelude::*;
use vstd::string::*;

verus! {

/// The status text of a manual update check: which version was installed, or
/// that the application is up to date.
pub open spec fn update_status_of(installed: Option<Seq<char>>) -> Seq<char> {
    match installed {
        Some(v) => "新版本 "@ + v + " 已安装，请重启应用生效"@,
        None => "已是最新版本"@,
    }
}

/// The text reported after an update check that succeeded: `installed` is the
/// version that was downloaded and installed, `None` when there was no update.
pub fn update_status(installed: Option<String>) -> (r: String)
    ensures
        r@ == update_status_of(match installed {
            Some(v) => Some(v@),
            None => None,
        }),
{
    match installed {
        Some(v) => {
            let mut s = String::from_str("新版本 ");
            s.append(v.as_str());
            s.append(" 已安装，请重启应用生效");
            s
        },
        None => String::from_str("已是最新版本"),
    }
}

/// Law of the update status: after an installed update the text names the
/// installed version, different versions give different texts, and none of
/// them is the up-to-date text.
pub proof fn lemma_update_status(v: Seq<char>, w: Seq<char>)
    ensures
        exists|i: int| 0 <= i && i + v.len() <= update_status_of(Some(v)).len()
            && #[trigger] update_status_of(Some(v)).subrange(i, i + v.len()) == v,
        v != w ==> update_status_of(Some(v)) != update_status_of(Some(w)),
        update_status_of(Some(v)) != update_status_of(None),
{
    let pre = "新版本 "@;
    let post = " 已安装，请重启应用生效"@;
    let sv = update_status_of(Some(v));
    assert(sv.subrange(pre.len() as int, (pre.len() + v.len()) as int) =~= v);
    if v != w {
        let sw = update_status_of(Some(w));
        if sv == sw {
            assert(sv.len() == pre.len() + v.len() + post.len());
            assert(sw.len() == pre.len() + w.len() + post.len());
            assert(sw.subrange(pre.len() as int, (pre.len() + w.len()) as int) =~= w);
        }
    }
    reveal_strlit("新版本 ");
    reveal_strlit(" 已安装，请重启应用生效");
    reveal_strlit("已是最新版本");
    assert(sv.len() >= pre.len() + post.len());
}

} // verus!
