//! The device listing: turning an enumerated set of capture devices into the
//! numbered, human-readable text shown to the user, and the cleaned-up name
//! list handed back to the caller. Enumerating the devices themselves is the
//! caller's job; this module only formats what was found.

use vstd::prelude::*;
use vstd::string::StrSliceExecFns;
use vstd::string::StringExecFns;
use crate::text::push_char;
use crate::text::push_decimal;
use crate::text::spec_dec;

verus! {

/// One capture device as the caller enumerated it: its name, an optional
/// description, and each address already rendered as text.
pub struct DeviceDescriptor {
    /// The device's name.
    pub name: String,
    /// The device's description, where the system offers one.
    pub desc: Option<String>,
    /// The device's addresses, one rendered line each.
    pub addresses: Vec<String>,
}

/// The mathematical shape of an enumerated device.
pub ghost struct DeviceDescriptorView {
    pub name: Seq<char>,
    pub desc: Option<Seq<char>>,
    pub addresses: Seq<Seq<char>>,
}

impl View for DeviceDescriptor {
    type V = DeviceDescriptorView;

    open spec fn view(&self) -> DeviceDescriptorView {
        DeviceDescriptorView {
            name: self.name@,
            desc: match self.desc {
                Some(ref d) => Some(d@),
                None => None,
            },
            addresses: self.addresses@.map_values(|a: String| a@),
        }
    }
}

/// The views of a list of devices.
pub open spec fn device_views(s: Seq<DeviceDescriptor>) -> Seq<DeviceDescriptorView> {
    s.map_values(|d: DeviceDescriptor| d@)
}

/// The text with every backslash doubled, as shell-quoted device names show.
pub open spec fn spec_escaped(s: Seq<char>) -> Seq<char>
    decreases s.len(),
{
    if s.len() == 0 {
        Seq::empty()
    } else {
        (if s[0] == '\\' {
            seq!['\\', '\\']
        } else {
            seq![s[0]]
        }) + spec_escaped(s.skip(1))
    }
}

fn push_escaped(out: &mut String, s: &str, from: usize)
    requires
        from <= s@.len(),
    ensures
        final(out)@ == old(out)@ + spec_escaped(s@.skip(from as int)),
    decreases s@.len() - from,
{
    let len = s.unicode_len();
    if from == len {
        proof {
            assert(s@.skip(from as int).len() == 0);
            assert(out@ =~= old(out)@ + spec_escaped(s@.skip(from as int)));
        }
    } else {
        let c = s.get_char(from);
        if c == '\\' {
            out.append("\\\\");
        } else {
            push_char(out, c);
        }
        push_escaped(out, s, from + 1);
        proof {
            reveal_strlit("\\\\");
            let tail = s@.skip(from as int);
            assert(tail[0] == c);
            assert(tail.skip(1) =~= s@.skip(from as int + 1));
            assert(out@ =~= old(out)@ + spec_escaped(tail));
        }
    }
}

/// Renders a device name with every backslash doubled.
pub fn escape_backslashes(s: &str) -> (r: String)
    ensures
        r@ == spec_escaped(s@),
{
    let mut out = String::new();
    push_escaped(&mut out, s, 0);
    proof {
        assert(s@.skip(0) =~= s@);
    }
    out
}

/// The address block of one listing entry: each address on its own line,
/// with the continuation lines indented to the column of the first.
pub open spec fn spec_address_lines(addrs: Seq<Seq<char>>) -> Seq<char>
    decreases addrs.len(),
{
    if addrs.len() == 0 {
        Seq::empty()
    } else if addrs.len() == 1 {
        addrs[0] + "\n"@
    } else {
        addrs[0] + "\n"@ + "                    "@ + spec_address_lines(addrs.skip(1))
    }
}

fn push_address_lines(out: &mut String, addrs: &Vec<String>, from: usize)
    requires
        from <= addrs@.len(),
    ensures
        final(out)@ == old(out)@ + spec_address_lines(
            addrs@.map_values(|a: String| a@).skip(from as int),
        ),
    decreases addrs@.len() - from,
{
    let ghost mapped = addrs@.map_values(|a: String| a@);
    if from == addrs.len() {
        proof {
            assert(mapped.skip(from as int).len() == 0);
            assert(out@ =~= old(out)@ + spec_address_lines(mapped.skip(from as int)));
        }
    } else if from + 1 == addrs.len() {
        out.append(addrs[from].as_str());
        out.append("\n");
        proof {
            let tail = mapped.skip(from as int);
            assert(tail.len() == 1);
            assert(tail[0] == mapped[from as int]);
            assert(out@ =~= old(out)@ + spec_address_lines(tail));
        }
    } else {
        out.append(addrs[from].as_str());
        out.append("\n");
        out.append("                    ");
        push_address_lines(out, addrs, from + 1);
        proof {
            let tail = mapped.skip(from as int);
            assert(tail.len() >= 2);
            assert(tail[0] == mapped[from as int]);
            assert(tail.skip(1) =~= mapped.skip(from as int + 1));
            assert(out@ =~= old(out)@ + spec_address_lines(tail));
        }
    }
}

/// One device's listing entry: its ordinal and escaped name, its description
/// (or the placeholder), and its address block.
pub open spec fn spec_device_entry(pos: nat, d: DeviceDescriptorView) -> Seq<char> {
    spec_dec(pos + 1) + ") "@ + spec_escaped(d.name) + "\n"@ + "       -Description: "@ + (
    match d.desc {
        Some(x) => x,
        None => "No description available"@,
    }) + "\n"@ + "       -Addresses:  "@ + spec_address_lines(d.addresses) + " \n"@
}

/// The whole listing text, entries in order, numbered from one.
pub open spec fn spec_device_listing(devs: Seq<DeviceDescriptorView>, from: int) -> Seq<char>
    decreases devs.len() - from,
{
    if from < 0 || from >= devs.len() {
        Seq::empty()
    } else {
        spec_device_entry(from as nat, devs[from]) + spec_device_listing(devs, from + 1)
    }
}

/// The formatted device listing, and the escaped device names in order.
pub struct DeviceListing {
    /// The numbered, human-readable listing text.
    pub text: String,
    /// Each device's name, backslashes doubled, in listing order.
    pub names: Vec<String>,
}

/// Formats the enumerated devices as the numbered listing shown to the user,
/// and collects the escaped device names in the same order.
pub fn parse_network_adapter(list: &Vec<DeviceDescriptor>) -> (r: DeviceListing)
    ensures
        r.text@ == spec_device_listing(device_views(list@), 0),
        r.names@.len() == list@.len(),
        forall|i: int| 0 <= i < list@.len() ==> r.names@[i]@ == spec_escaped(
            device_views(list@)[i].name,
        ),
{
    let mut text = String::new();
    let mut names: Vec<String> = Vec::new();
    let n = list.len();
    let mut i: usize = 0;
    while i < n
        invariant
            n == list@.len(),
            i <= n,
            names@.len() == i as int,
            forall|j: int| 0 <= j < i as int ==> names@[j]@ == spec_escaped(
                device_views(list@)[j].name,
            ),
            text@ + spec_device_listing(device_views(list@), i as int) == spec_device_listing(
                device_views(list@),
                0,
            ),
        decreases n - i,
    {
        let ghost text0 = text@;
        let d = &list[i];
        push_decimal(&mut text, (i as u64) + 1);
        text.append(") ");
        push_escaped(&mut text, d.name.as_str(), 0);
        text.append("\n");
        text.append("       -Description: ");
        match &d.desc {
            Some(desc) => text.append(desc.as_str()),
            None => text.append("No description available"),
        }
        text.append("\n");
        text.append("       -Addresses:  ");
        push_address_lines(&mut text, &d.addresses, 0);
        text.append(" \n");
        names.push(escape_backslashes(d.name.as_str()));
        proof {
            let dv = device_views(list@);
            assert(dv[i as int] == list@[i as int]@);
            assert(d.name@.skip(0) =~= dv[i as int].name);
            assert(d.addresses@.map_values(|a: String| a@).skip(0) =~= dv[i as int].addresses);
            assert(text@ =~= text0 + spec_device_entry(i as nat, dv[i as int]));
            assert(text@ + spec_device_listing(dv, i as int + 1) =~= text0 + spec_device_listing(
                dv,
                i as int,
            ));
        }
        i = i + 1;
    }
    proof {
        assert(spec_device_listing(device_views(list@), n as int).len() == 0);
    }
    DeviceListing { text, names }
}

} // verus!
